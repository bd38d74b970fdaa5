//! The request builder: one optional slot per field, one setter per slot.

use vstd::prelude::*;
use vstd::slice::slice_to_vec;

use crate::convert::{bool_str, join_ids, join_sizes, join_texts, push_token, BASE_URL};
use crate::datatype::{
    all_recognized, check_len, check_range, closed, first_unrecognized, named_sizes, Category,
    Error, ErrorView, Field, ImageSize,
};
use crate::decimal::to_decimal;

verus! {

/// What a [`Request`] holds, as mathematical values. `None` means that the
/// field was never set.
pub struct RequestView {
    pub category: Option<Category>,
    pub num: Option<usize>,
    pub uid: Option<Seq<u64>>,
    pub keyword: Option<Seq<char>>,
    pub tag: Option<Seq<Seq<char>>>,
    pub size: Option<Seq<ImageSize>>,
    pub proxy: Option<Seq<char>>,
    pub date_after: Option<u64>,
    pub date_before: Option<u64>,
    pub dsc: Option<bool>,
}

/// One setter call as a value: the field it writes and what it writes
/// there. Texts and lists stand as sequences.
pub enum Setting {
    Category(Category),
    Num(usize),
    Uid(Seq<u64>),
    Keyword(Seq<char>),
    Tag(Seq<Seq<char>>),
    Size(Seq<ImageSize>),
    Proxy(Seq<char>),
    DateAfter(u64),
    DateBefore(u64),
    Dsc(bool),
}

impl Setting {
    /// The field that the setting writes.
    pub open spec fn field(self) -> Field {
        match self {
            Setting::Category(_) => Field::Category,
            Setting::Num(_) => Field::Num,
            Setting::Uid(_) => Field::Uid,
            Setting::Keyword(_) => Field::Keyword,
            Setting::Tag(_) => Field::Tag,
            Setting::Size(_) => Field::Size,
            Setting::Proxy(_) => Field::Proxy,
            Setting::DateAfter(_) => Field::DateAfter,
            Setting::DateBefore(_) => Field::DateBefore,
            Setting::Dsc(_) => Field::Dsc,
        }
    }

    /// Whether the value lies in the domain of its field.
    pub open spec fn valid(self) -> bool {
        match self {
            Setting::Num(n) => 1 <= n <= 100,
            Setting::Uid(ids) => 1 <= ids.len() <= 20,
            Setting::Tag(tags) => 1 <= tags.len() <= 20,
            Setting::Size(sizes) => 1 <= sizes.len() <= 5,
            _ => true,
        }
    }
}

impl RequestView {
    /// The request in which no field is set.
    pub open spec fn unset() -> RequestView {
        RequestView {
            category: None,
            num: None,
            uid: None,
            keyword: None,
            tag: None,
            size: None,
            proxy: None,
            date_after: None,
            date_before: None,
            dsc: None,
        }
    }

    /// The request after one setting: the field that the setting names holds
    /// the new value, whatever it held before, and no other field changes.
    pub open spec fn set(self, setting: Setting) -> RequestView {
        match setting {
            Setting::Category(c) => RequestView { category: Some(c), ..self },
            Setting::Num(n) => RequestView { num: Some(n), ..self },
            Setting::Uid(ids) => RequestView { uid: Some(ids), ..self },
            Setting::Keyword(k) => RequestView { keyword: Some(k), ..self },
            Setting::Tag(tags) => RequestView { tag: Some(tags), ..self },
            Setting::Size(sizes) => RequestView { size: Some(sizes), ..self },
            Setting::Proxy(p) => RequestView { proxy: Some(p), ..self },
            Setting::DateAfter(t) => RequestView { date_after: Some(t), ..self },
            Setting::DateBefore(t) => RequestView { date_before: Some(t), ..self },
            Setting::Dsc(b) => RequestView { dsc: Some(b), ..self },
        }
    }

    /// The setting that a field holds, if it was set.
    pub open spec fn get(self, field: Field) -> Option<Setting> {
        match field {
            Field::Category => match self.category {
                Some(c) => Some(Setting::Category(c)),
                None => None,
            },
            Field::Num => match self.num {
                Some(n) => Some(Setting::Num(n)),
                None => None,
            },
            Field::Uid => match self.uid {
                Some(ids) => Some(Setting::Uid(ids)),
                None => None,
            },
            Field::Keyword => match self.keyword {
                Some(k) => Some(Setting::Keyword(k)),
                None => None,
            },
            Field::Tag => match self.tag {
                Some(tags) => Some(Setting::Tag(tags)),
                None => None,
            },
            Field::Size => match self.size {
                Some(sizes) => Some(Setting::Size(sizes)),
                None => None,
            },
            Field::Proxy => match self.proxy {
                Some(p) => Some(Setting::Proxy(p)),
                None => None,
            },
            Field::DateAfter => match self.date_after {
                Some(t) => Some(Setting::DateAfter(t)),
                None => None,
            },
            Field::DateBefore => match self.date_before {
                Some(t) => Some(Setting::DateBefore(t)),
                None => None,
            },
            Field::Dsc => match self.dsc {
                Some(b) => Some(Setting::Dsc(b)),
                None => None,
            },
        }
    }

    /// Whether every field that is set holds a value of its domain.
    pub open spec fn valid(self) -> bool {
        &&& self.num matches Some(n) ==> Setting::Num(n).valid()
        &&& self.uid matches Some(ids) ==> Setting::Uid(ids).valid()
        &&& self.tag matches Some(tags) ==> Setting::Tag(tags).valid()
        &&& self.size matches Some(sizes) ==> Setting::Size(sizes).valid()
    }
}

/// A request to the image-search endpoint under construction.
///
/// Every field starts unset. A setter takes the request by value and gives
/// back the request with that one field written; a setter whose field has a
/// domain gives back an [`Error`] instead when the value lies outside it.
/// The request that went into a failed call is gone with the call: clone it
/// beforehand to go on from it.
///
/// A field that is set always holds a value of its domain. No function
/// that takes a request asks for this, and every function that makes one
/// establishes it.
#[derive(Debug, PartialEq, Eq)]
pub struct Request {
    category: Option<Category>,
    num: Option<usize>,
    uid: Option<Vec<u64>>,
    keyword: Option<String>,
    tag: Option<Vec<String>>,
    size: Option<Vec<ImageSize>>,
    proxy: Option<String>,
    date_after: Option<u64>,
    date_before: Option<u64>,
    dsc: Option<bool>,
}

impl View for Request {
    type V = RequestView;

    closed spec fn view(&self) -> RequestView {
        RequestView {
            category: self.category,
            num: self.num,
            uid: match self.uid {
                Some(ids) => Some(ids@),
                None => None,
            },
            keyword: match self.keyword {
                Some(k) => Some(k@),
                None => None,
            },
            tag: match self.tag {
                Some(tags) => Some(tags.deep_view()),
                None => None,
            },
            size: match self.size {
                Some(sizes) => Some(sizes@),
                None => None,
            },
            proxy: match self.proxy {
                Some(p) => Some(p@),
                None => None,
            },
            date_after: self.date_after,
            date_before: self.date_before,
            dsc: self.dsc,
        }
    }
}

impl Default for Request {
    /// The request in which no field is set.
    fn default() -> (r: Self)
        ensures
            r@ == RequestView::unset(),
            r@.valid(),
    {
        Request {
            category: None,
            num: None,
            uid: None,
            keyword: None,
            tag: None,
            size: None,
            proxy: None,
            date_after: None,
            date_before: None,
            dsc: None,
        }
    }
}

impl Clone for Request {
    /// A second request that holds what this one holds.
    fn clone(&self) -> (r: Self)
        ensures
            r@ == self@,
    {
        proof {
            use_type_invariant(self);
        }
        let tag = match &self.tag {
            Some(tags) => {
                let mut copy: Vec<String> = Vec::new();
                let mut i: usize = 0;
                while i < tags.len()
                    invariant
                        i <= tags.len(),
                        copy.len() == i,
                        forall|j: int| 0 <= j < i ==> copy[j]@ == tags[j]@,
                    decreases tags.len() - i,
                {
                    copy.push(tags[i].clone());
                    i += 1;
                }
                assert(copy.deep_view() =~= tags.deep_view());
                Some(copy)
            },
            None => None,
        };
        Request {
            category: self.category,
            num: self.num,
            uid: match &self.uid {
                Some(ids) => Some(slice_to_vec(ids.as_slice())),
                None => None,
            },
            keyword: match &self.keyword {
                Some(keyword) => Some(keyword.clone()),
                None => None,
            },
            tag,
            size: match &self.size {
                Some(sizes) => Some(slice_to_vec(sizes.as_slice())),
                None => None,
            },
            proxy: match &self.proxy {
                Some(proxy) => Some(proxy.clone()),
                None => None,
            },
            date_after: self.date_after,
            date_before: self.date_before,
            dsc: self.dsc,
        }
    }
}

impl Request {
    /// Every field that is set holds a value of its domain.
    #[verifier::type_invariant]
    spec fn inv(self) -> bool {
        self@.valid()
    }

    /// Sets the content rating. Every rating is accepted.
    pub fn category(self, category: Category) -> (r: Self)
        ensures
            r@ == self@.set(Setting::Category(category)),
            r@.valid(),
    {
        proof {
            use_type_invariant(&self);
        }
        Request { category: Some(category), ..self }
    }

    /// Sets the number of results asked for, which must lie between 1 and
    /// 100.
    pub fn num(self, num: usize) -> (r: Result<Self, Error>)
        ensures
            1 <= num <= 100 ==> (r matches Ok(req) && req@ == self@.set(Setting::Num(num))
                && req@.valid()),
            !(1 <= num <= 100) ==> (r matches Err(e) && e@ == (ErrorView::OutOfRange {
                field: Field::Num.name(),
                bounds: closed(1, 100),
                actual: num,
            })),
    {
        proof {
            use_type_invariant(&self);
        }
        match check_range(Field::Num, 1, 100, num) {
            Ok(()) => Ok(Request { num: Some(num), ..self }),
            Err(e) => Err(e),
        }
    }

    /// Sets the authors whose works are asked for: between 1 and 20 ids, kept
    /// in the order given. An empty list is turned down like any other list
    /// of a wrong length: it is no way to unset the field.
    pub fn uid(self, uid: &[u64]) -> (r: Result<Self, Error>)
        ensures
            1 <= uid@.len() <= 20 ==> (r matches Ok(req) && req@ == self@.set(Setting::Uid(uid@))
                && req@.valid()),
            !(1 <= uid@.len() <= 20) ==> (r matches Err(e) && e@ == (ErrorView::InvalidLength {
                field: Field::Uid.name(),
                bounds: closed(1, 20),
                actual_len: uid.len(),
            })),
    {
        proof {
            use_type_invariant(&self);
        }
        match check_len(Field::Uid, 1, 20, uid.len()) {
            Ok(()) => Ok(Request { uid: Some(slice_to_vec(uid)), ..self }),
            Err(e) => Err(e),
        }
    }

    /// Sets the free-text keyword. Every text is accepted, and none is
    /// altered.
    pub fn keyword(self, keyword: &str) -> (r: Self)
        ensures
            r@ == self@.set(Setting::Keyword(keyword@)),
            r@.valid(),
    {
        proof {
            use_type_invariant(&self);
        }
        Request { keyword: Some(keyword.to_owned()), ..self }
    }

    /// Sets the tags asked for: between 1 and 20 texts, kept in the order
    /// given. An empty list is turned down like any other list of a wrong
    /// length: it is no way to unset the field.
    pub fn tag(self, tag: &[&str]) -> (r: Result<Self, Error>)
        ensures
            1 <= tag@.len() <= 20 ==> (r matches Ok(req) && req@ == self@.set(
                Setting::Tag(tag.deep_view()),
            ) && req@.valid()),
            !(1 <= tag@.len() <= 20) ==> (r matches Err(e) && e@ == (ErrorView::InvalidLength {
                field: Field::Tag.name(),
                bounds: closed(1, 20),
                actual_len: tag.len(),
            })),
    {
        proof {
            use_type_invariant(&self);
        }
        match check_len(Field::Tag, 1, 20, tag.len()) {
            Ok(()) => {
                let mut tags: Vec<String> = Vec::new();
                let mut i: usize = 0;
                while i < tag.len()
                    invariant
                        i <= tag.len(),
                        tags.len() == i,
                        forall|j: int| 0 <= j < i ==> tags[j]@ == tag[j]@,
                    decreases tag.len() - i,
                {
                    tags.push(tag[i].to_owned());
                    i += 1;
                }
                assert(tags.deep_view() =~= tag.deep_view());
                Ok(Request { tag: Some(tags), ..self })
            },
            Err(e) => Err(e),
        }
    }

    /// Sets the image sizes asked for: between 1 and 5 sizes, kept in the
    /// order given.
    pub fn size(self, size: &[ImageSize]) -> (r: Result<Self, Error>)
        ensures
            1 <= size@.len() <= 5 ==> (r matches Ok(req) && req@ == self@.set(
                Setting::Size(size@),
            ) && req@.valid()),
            !(1 <= size@.len() <= 5) ==> (r matches Err(e) && e@ == (ErrorView::InvalidLength {
                field: Field::Size.name(),
                bounds: closed(1, 5),
                actual_len: size.len(),
            })),
    {
        proof {
            use_type_invariant(&self);
        }
        match check_len(Field::Size, 1, 5, size.len()) {
            Ok(()) => Ok(Request { size: Some(slice_to_vec(size)), ..self }),
            Err(e) => Err(e),
        }
    }

    /// Sets the image sizes asked for from their wire names, kept in the
    /// order given.
    ///
    /// The names are read first, from the front, and the first one that
    /// names no size is reported. Only a list in which every name is known
    /// is then held to the length of 1 to 5.
    pub fn size_names(self, names: &[&str]) -> (r: Result<Self, Error>)
        ensures
            !all_recognized(names.deep_view()) ==> (r matches Err(e) && exists|i: int|
                {
                    &&& #[trigger] first_unrecognized(names.deep_view(), i)
                    &&& e@ == (ErrorView::UnrecognizedValue {
                        field: Field::Size.name(),
                        value: names.deep_view()[i],
                    })
                }),
            all_recognized(names.deep_view()) && !(1 <= names@.len() <= 5) ==> (r matches Err(e)
                && e@ == (ErrorView::InvalidLength {
                field: Field::Size.name(),
                bounds: closed(1, 5),
                actual_len: names.len(),
            })),
            all_recognized(names.deep_view()) && 1 <= names@.len() <= 5 ==> (r matches Ok(req)
                && req@ == self@.set(Setting::Size(named_sizes(names.deep_view())))
                && req@.valid()),
    {
        match ImageSize::from_names(names) {
            Ok(sizes) => self.size(sizes.as_slice()),
            Err(e) => Err(e),
        }
    }

    /// Sets the host that image links are to go through. Every text is
    /// accepted, and none is altered.
    pub fn proxy(self, proxy: &str) -> (r: Self)
        ensures
            r@ == self@.set(Setting::Proxy(proxy@)),
            r@.valid(),
    {
        proof {
            use_type_invariant(&self);
        }
        Request { proxy: Some(proxy.to_owned()), ..self }
    }

    /// Asks for works uploaded after a moment, given in milliseconds since
    /// the epoch.
    pub fn date_after(self, date_after: u64) -> (r: Self)
        ensures
            r@ == self@.set(Setting::DateAfter(date_after)),
            r@.valid(),
    {
        proof {
            use_type_invariant(&self);
        }
        Request { date_after: Some(date_after), ..self }
    }

    /// Asks for works uploaded before a moment, given in milliseconds since
    /// the epoch.
    pub fn date_before(self, date_before: u64) -> (r: Self)
        ensures
            r@ == self@.set(Setting::DateBefore(date_before)),
            r@.valid(),
    {
        proof {
            use_type_invariant(&self);
        }
        Request { date_before: Some(date_before), ..self }
    }

    /// Switches the endpoint's automatic conversion of keywords off (`true`)
    /// or on (`false`).
    pub fn dsc(self, dsc: bool) -> (r: Self)
        ensures
            r@ == self@.set(Setting::Dsc(dsc)),
            r@.valid(),
    {
        proof {
            use_type_invariant(&self);
        }
        Request { dsc: Some(dsc), ..self }
    }

    /// The value text that a field sends, or `None` when the field sends
    /// nothing: because it is unset, or because it holds the default.
    pub fn rendered(&self, field: Field) -> (r: Option<String>)
        ensures
            match r {
                Some(text) => self@.rendered(field) == Some(text@),
                None => self@.rendered(field) is None,
            },
    {
        match field {
            Field::Category => match self.category {
                Some(category) => if category == Category::NonR18 {
                    None
                } else {
                    Some(to_decimal(category.to_code()))
                },
                None => None,
            },
            Field::Num => match self.num {
                Some(num) => Some(to_decimal(num as u64)),
                None => None,
            },
            Field::Uid => match &self.uid {
                Some(ids) => Some(join_ids(ids.as_slice())),
                None => None,
            },
            Field::Keyword => match &self.keyword {
                Some(keyword) => Some(keyword.clone()),
                None => None,
            },
            Field::Tag => match &self.tag {
                Some(tags) => Some(join_texts(tags.as_slice())),
                None => None,
            },
            Field::Size => match &self.size {
                Some(sizes) => Some(join_sizes(sizes.as_slice())),
                None => None,
            },
            Field::Proxy => match &self.proxy {
                Some(proxy) => Some(proxy.clone()),
                None => None,
            },
            Field::DateAfter => match self.date_after {
                Some(date_after) => Some(to_decimal(date_after)),
                None => None,
            },
            Field::DateBefore => match self.date_before {
                Some(date_before) => Some(to_decimal(date_before)),
                None => None,
            },
            Field::Dsc => match self.dsc {
                Some(dsc) => Some(bool_str(dsc).to_owned()),
                None => None,
            },
        }
    }

    /// Appends to a query string what a field adds to it: its token, or
    /// nothing.
    pub fn push_field(&self, out: &mut String, field: Field)
        ensures
            final(out)@ == old(out)@ + self@.token(field),
    {
        match self.rendered(field) {
            Some(value) => push_token(out, field.key_str(), value.as_str()),
            None => {
                assert(out@ =~= old(out)@ + self@.token(field));
            },
        }
    }

    /// The URL of the request. It starts with the base and a question mark.
    /// Then each field that was set to something other than the endpoint's
    /// default adds its token, in the one fixed order of the fields, whatever
    /// the order of the setter calls was.
    pub fn to_string(&self) -> (url: String)
        ensures
            url@ == self@.url(),
    {
        let mut url = BASE_URL.to_owned();
        proof {
            reveal_strlit("?");
        }
        url.append("?");
        assert(url@ =~= BASE_URL@ + seq!['?']);
        self.push_field(&mut url, Field::Category);
        self.push_field(&mut url, Field::Num);
        self.push_field(&mut url, Field::Uid);
        self.push_field(&mut url, Field::Keyword);
        self.push_field(&mut url, Field::Tag);
        self.push_field(&mut url, Field::Size);
        self.push_field(&mut url, Field::Proxy);
        self.push_field(&mut url, Field::DateAfter);
        self.push_field(&mut url, Field::DateBefore);
        self.push_field(&mut url, Field::Dsc);
        url
    }
}

impl From<Request> for String {
    /// The URL of the request.
    fn from(request: Request) -> (url: String)
        ensures
            url@ == request@.url(),
    {
        request.to_string()
    }
}

/// `from` says what it returns through the characters of the result, as
/// `to_string` does. Ghost code cannot build a `String` from its characters,
/// so the conversion names no result of its own here.
impl vstd::std_specs::convert::FromSpecImpl<Request> for String {
    open spec fn obeys_from_spec() -> bool {
        false
    }

    open spec fn from_spec(request: Request) -> String {
        arbitrary()
    }
}

} // verus!
