//! The values a request is made of, and the errors a setter can report.

use std::ops::RangeInclusive;
use vstd::prelude::*;
use vstd::std_specs::range::RangeInclusiveView;

use crate::text::same_text;

verus! {

/// Which content ratings the endpoint may return.
#[derive(Clone, Copy, Debug, PartialEq, Eq, Structural)]
pub enum Category {
    /// Non-explicit content only. This is what the endpoint does when it is
    /// told nothing, so a request never sends it.
    NonR18,
    /// Explicit content only.
    R18,
    /// Both kinds.
    Mixed,
}

impl Category {
    /// The integer code that stands for the rating on the wire.
    pub open spec fn code(self) -> nat {
        match self {
            Category::NonR18 => 0,
            Category::R18 => 1,
            Category::Mixed => 2,
        }
    }

    /// Whether the rating is what the endpoint assumes anyway. Such a rating
    /// is kept in the request but leaves no trace in the URL.
    pub open spec fn is_default(self) -> bool {
        self == Category::NonR18
    }

    /// The integer code that stands for the rating on the wire.
    pub fn to_code(self) -> (r: u64)
        ensures
            r == self.code(),
    {
        match self {
            Category::NonR18 => 0,
            Category::R18 => 1,
            Category::Mixed => 2,
        }
    }
}

/// The image sizes the endpoint can link to.
#[derive(Clone, Copy, Debug, PartialEq, Eq, Structural)]
pub enum ImageSize {
    /// The image as it was uploaded.
    Original,
    /// A reduced image for ordinary viewing.
    Regular,
    /// A small image.
    Small,
    /// A thumbnail.
    Thumb,
    /// The smallest thumbnail.
    Mini,
}

impl ImageSize {
    /// The lower-case name of the size on the wire.
    pub open spec fn name(self) -> Seq<char> {
        match self {
            ImageSize::Original => "original"@,
            ImageSize::Regular => "regular"@,
            ImageSize::Small => "small"@,
            ImageSize::Thumb => "thumb"@,
            ImageSize::Mini => "mini"@,
        }
    }

    /// The size that a piece of text names, if it names one.
    pub open spec fn parse(text: Seq<char>) -> Option<ImageSize> {
        if text == "original"@ {
            Some(ImageSize::Original)
        } else if text == "regular"@ {
            Some(ImageSize::Regular)
        } else if text == "small"@ {
            Some(ImageSize::Small)
        } else if text == "thumb"@ {
            Some(ImageSize::Thumb)
        } else if text == "mini"@ {
            Some(ImageSize::Mini)
        } else {
            None
        }
    }

    /// The lower-case name of the size on the wire.
    pub fn as_str(self) -> (r: &'static str)
        ensures
            r@ == self.name(),
    {
        match self {
            ImageSize::Original => "original",
            ImageSize::Regular => "regular",
            ImageSize::Small => "small",
            ImageSize::Thumb => "thumb",
            ImageSize::Mini => "mini",
        }
    }

    /// Reads a size from its wire name. Names are matched exactly: no other
    /// spelling or letter case is recognised.
    pub fn from_name(text: &str) -> (r: Option<ImageSize>)
        ensures
            r == ImageSize::parse(text@),
    {
        if same_text(text, "original") {
            Some(ImageSize::Original)
        } else if same_text(text, "regular") {
            Some(ImageSize::Regular)
        } else if same_text(text, "small") {
            Some(ImageSize::Small)
        } else if same_text(text, "thumb") {
            Some(ImageSize::Thumb)
        } else if same_text(text, "mini") {
            Some(ImageSize::Mini)
        } else {
            None
        }
    }

    /// Reads a list of sizes from their wire names, one for one and in their
    /// order. The names are read from the front, and the first one that
    /// names no size is reported.
    pub fn from_names(names: &[&str]) -> (r: Result<Vec<ImageSize>, Error>)
        ensures
            all_recognized(names.deep_view()) ==> (r matches Ok(sizes) && sizes@ == named_sizes(
                names.deep_view(),
            )),
            !all_recognized(names.deep_view()) ==> (r matches Err(e) && exists|i: int|
                {
                    &&& #[trigger] first_unrecognized(names.deep_view(), i)
                    &&& e@ == (ErrorView::UnrecognizedValue {
                        field: Field::Size.name(),
                        value: names.deep_view()[i],
                    })
                }),
    {
        let ghost texts = names.deep_view();
        let mut sizes: Vec<ImageSize> = Vec::new();
        let mut i: usize = 0;
        while i < names.len()
            invariant
                i <= names.len(),
                texts == names.deep_view(),
                sizes.len() == i,
                forall|j: int|
                    0 <= j < i ==> (#[trigger] ImageSize::parse(texts[j])) == Some(sizes[j]),
            decreases names.len() - i,
        {
            match ImageSize::from_name(names[i]) {
                Some(size) => sizes.push(size),
                None => {
                    assert(first_unrecognized(texts, i as int));
                    return Err(
                        Error::UnrecognizedValue {
                            field: Field::Size.name_str(),
                            value: names[i].to_owned(),
                        },
                    );
                },
            }
            i += 1;
        }
        assert(sizes@ =~= named_sizes(texts));
        Ok(sizes)
    }

    /// Every size is read back from its own name, and from no other text.
    pub proof fn lemma_parse_name(size: ImageSize, text: Seq<char>)
        ensures
            ImageSize::parse(size.name()) == Some(size),
            ImageSize::parse(text) == Some(size) <==> text == size.name(),
    {
        reveal_strlit("original");
        reveal_strlit("regular");
        reveal_strlit("small");
        reveal_strlit("thumb");
        reveal_strlit("mini");
        assert("original"@.len() == 8);
        assert("regular"@.len() == 7);
        assert("small"@.len() == 5 && "small"@[0] == 's');
        assert("thumb"@.len() == 5 && "thumb"@[0] == 't');
        assert("mini"@.len() == 4);
    }
}

/// Whether every text in `names` names a size.
pub open spec fn all_recognized(names: Seq<Seq<char>>) -> bool {
    forall|i: int| 0 <= i < names.len() ==> (#[trigger] ImageSize::parse(names[i])) is Some
}

/// Whether `i` is the place of the first text in `names` that names no size.
pub open spec fn first_unrecognized(names: Seq<Seq<char>>, i: int) -> bool {
    &&& 0 <= i < names.len()
    &&& ImageSize::parse(names[i]) is None
    &&& forall|j: int| 0 <= j < i ==> (#[trigger] ImageSize::parse(names[j])) is Some
}

/// The sizes that the texts in `names` name, one for one and in their order.
pub open spec fn named_sizes(names: Seq<Seq<char>>) -> Seq<ImageSize> {
    Seq::new(names.len(), |i: int| ImageSize::parse(names[i]).unwrap())
}

/// The fields of a request, in the order in which a URL names them.
#[derive(Clone, Copy, Debug, PartialEq, Eq, Structural)]
pub enum Field {
    /// The content rating.
    Category,
    /// The number of results.
    Num,
    /// The ids of the authors.
    Uid,
    /// The free-text keyword.
    Keyword,
    /// The tags.
    Tag,
    /// The image sizes.
    Size,
    /// The host that image links go through.
    Proxy,
    /// The moment after which works were uploaded.
    DateAfter,
    /// The moment before which works were uploaded.
    DateBefore,
    /// Whether automatic keyword conversion is switched off.
    Dsc,
}

impl Field {
    /// The name by which errors refer to the field.
    pub open spec fn name(self) -> Seq<char> {
        match self {
            Field::Category => "content-rating"@,
            Field::Num => "result-count"@,
            Field::Uid => "author-ids"@,
            Field::Keyword => "keyword"@,
            Field::Tag => "tags"@,
            Field::Size => "image-sizes"@,
            Field::Proxy => "proxy-host"@,
            Field::DateAfter => "after-timestamp"@,
            Field::DateBefore => "before-timestamp"@,
            Field::Dsc => "disable-auto-conversion"@,
        }
    }

    /// The key under which the field travels in the query string.
    pub open spec fn key(self) -> Seq<char> {
        match self {
            Field::Category => "content-rating-key"@,
            Field::Num => "result-count-key"@,
            Field::Uid => "author-ids-key"@,
            Field::Keyword => "keyword-key"@,
            Field::Tag => "tags-key"@,
            Field::Size => "image-sizes-key"@,
            Field::Proxy => "proxy-host-key"@,
            Field::DateAfter => "after-timestamp-key"@,
            Field::DateBefore => "before-timestamp-key"@,
            Field::Dsc => "disable-auto-conversion-key"@,
        }
    }

    /// The name by which errors refer to the field.
    pub fn name_str(self) -> (r: &'static str)
        ensures
            r@ == self.name(),
    {
        match self {
            Field::Category => "content-rating",
            Field::Num => "result-count",
            Field::Uid => "author-ids",
            Field::Keyword => "keyword",
            Field::Tag => "tags",
            Field::Size => "image-sizes",
            Field::Proxy => "proxy-host",
            Field::DateAfter => "after-timestamp",
            Field::DateBefore => "before-timestamp",
            Field::Dsc => "disable-auto-conversion",
        }
    }

    /// The key under which the field travels in the query string.
    pub fn key_str(self) -> (r: &'static str)
        ensures
            r@ == self.key(),
    {
        match self {
            Field::Category => "content-rating-key",
            Field::Num => "result-count-key",
            Field::Uid => "author-ids-key",
            Field::Keyword => "keyword-key",
            Field::Tag => "tags-key",
            Field::Size => "image-sizes-key",
            Field::Proxy => "proxy-host-key",
            Field::DateAfter => "after-timestamp-key",
            Field::DateBefore => "before-timestamp-key",
            Field::Dsc => "disable-auto-conversion-key",
        }
    }
}

/// Why a setter turned a value down.
#[derive(Debug, PartialEq, Eq)]
pub enum Error {
    /// A number lies outside the closed interval its field accepts.
    OutOfRange { field: &'static str, bounds: RangeInclusive<usize>, actual: usize },
    /// A list is shorter or longer than its field accepts.
    InvalidLength { field: &'static str, bounds: RangeInclusive<usize>, actual_len: usize },
    /// An element is not among the values its field knows.
    UnrecognizedValue { field: &'static str, value: String },
}

/// What an [`Error`] says, with its texts as character sequences.
pub enum ErrorView {
    OutOfRange { field: Seq<char>, bounds: RangeInclusiveView<usize>, actual: usize },
    InvalidLength { field: Seq<char>, bounds: RangeInclusiveView<usize>, actual_len: usize },
    UnrecognizedValue { field: Seq<char>, value: Seq<char> },
}

impl View for Error {
    type V = ErrorView;

    open spec fn view(&self) -> ErrorView {
        match *self {
            Error::OutOfRange { field, bounds, actual } => ErrorView::OutOfRange {
                field: field@,
                bounds: bounds@,
                actual,
            },
            Error::InvalidLength { field, bounds, actual_len } => ErrorView::InvalidLength {
                field: field@,
                bounds: bounds@,
                actual_len,
            },
            Error::UnrecognizedValue { field, value } => ErrorView::UnrecognizedValue {
                field: field@,
                value: value@,
            },
        }
    }
}

/// The closed interval from `low` to `high`, as a fresh inclusive range
/// shows it.
pub open spec fn closed(low: usize, high: usize) -> RangeInclusiveView<usize> {
    RangeInclusiveView { start: low, end: high, exhausted: false }
}

/// Accepts `actual` when it lies in the closed interval from `low` to `high`,
/// and otherwise reports it as out of range for `field`.
pub fn check_range(field: Field, low: usize, high: usize, actual: usize) -> (r: Result<(), Error>)
    ensures
        low <= actual <= high ==> r is Ok,
        !(low <= actual <= high) ==> (r matches Err(e) && e@ == (ErrorView::OutOfRange {
            field: field.name(),
            bounds: closed(low, high),
            actual,
        })),
{
    if low <= actual && actual <= high {
        Ok(())
    } else {
        Err(Error::OutOfRange {
            field: field.name_str(),
            bounds: RangeInclusive::new(low, high),
            actual,
        })
    }
}

/// Accepts a list of `len` elements when `len` lies in the closed interval
/// from `low` to `high`, and otherwise reports the length as invalid for
/// `field`.
pub fn check_len(field: Field, low: usize, high: usize, len: usize) -> (r: Result<(), Error>)
    ensures
        low <= len <= high ==> r is Ok,
        !(low <= len <= high) ==> (r matches Err(e) && e@ == (ErrorView::InvalidLength {
            field: field.name(),
            bounds: closed(low, high),
            actual_len: len,
        })),
{
    if low <= len && len <= high {
        Ok(())
    } else {
        Err(Error::InvalidLength {
            field: field.name_str(),
            bounds: RangeInclusive::new(low, high),
            actual_len: len,
        })
    }
}

} // verus!
