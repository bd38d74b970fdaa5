//! From a request to its URL: which fields appear, in which order, and how
//! each value is written.

use vstd::prelude::*;
use vstd::string::*;

use crate::datatype::{Field, ImageSize};
use crate::decimal::{decimal, to_decimal};
use crate::request::{RequestView, Setting};
use crate::text::{comma_joined, lemma_comma_joined_push, push_joined};

verus! {

/// Where every URL starts: the endpoint, without a query.
pub const BASE_URL: &'static str = "https://api.example.app/setu/v2";

/// The decimal texts of `ids`, one for one and in their order.
pub open spec fn id_texts(ids: Seq<u64>) -> Seq<Seq<char>> {
    Seq::new(ids.len(), |i: int| decimal(ids[i] as nat))
}

/// The wire names of `sizes`, one for one and in their order.
pub open spec fn size_texts(sizes: Seq<ImageSize>) -> Seq<Seq<char>> {
    Seq::new(sizes.len(), |i: int| sizes[i].name())
}

/// The text of a truth value on the wire.
pub open spec fn bool_text(b: bool) -> Seq<char> {
    if b {
        "true"@
    } else {
        "false"@
    }
}

/// One token of a query string: an ampersand, the key, an equals sign, the
/// value.
pub open spec fn token_text(key: Seq<char>, value: Seq<char>) -> Seq<char> {
    seq!['&'] + key + seq!['='] + value
}

impl Setting {
    /// Whether the value is what the endpoint assumes when it is told
    /// nothing. Such a value is kept in the request but never sent.
    pub open spec fn is_default(self) -> bool {
        self matches Setting::Category(c) && c.is_default()
    }

    /// The value as it is written on the wire. Numbers are decimal, lists
    /// are joined by commas in their own order, and texts stand as they are.
    pub open spec fn text(self) -> Seq<char> {
        match self {
            Setting::Category(c) => decimal(c.code()),
            Setting::Num(n) => decimal(n as nat),
            Setting::Uid(ids) => comma_joined(id_texts(ids)),
            Setting::Keyword(k) => k,
            Setting::Tag(tags) => comma_joined(tags),
            Setting::Size(sizes) => comma_joined(size_texts(sizes)),
            Setting::Proxy(p) => p,
            Setting::DateAfter(t) => decimal(t as nat),
            Setting::DateBefore(t) => decimal(t as nat),
            Setting::Dsc(b) => bool_text(b),
        }
    }
}

impl RequestView {
    /// The value text that a field sends, or `None` when the field sends
    /// nothing: because it is unset, or because it holds the default.
    pub open spec fn rendered(self, field: Field) -> Option<Seq<char>> {
        match self.get(field) {
            Some(setting) => if setting.is_default() {
                None
            } else {
                Some(setting.text())
            },
            None => None,
        }
    }

    /// What a field adds to the query string: its token, or nothing.
    pub open spec fn token(self, field: Field) -> Seq<char> {
        match self.rendered(field) {
            Some(value) => token_text(field.key(), value),
            None => Seq::empty(),
        }
    }

    /// The URL of the request: the base, a question mark, and then the
    /// tokens of the fields in their one fixed order.
    pub open spec fn url(self) -> Seq<char> {
        BASE_URL@ + seq!['?'] + self.token(Field::Category) + self.token(Field::Num) + self.token(
            Field::Uid,
        ) + self.token(Field::Keyword) + self.token(Field::Tag) + self.token(Field::Size)
            + self.token(Field::Proxy) + self.token(Field::DateAfter) + self.token(
            Field::DateBefore,
        ) + self.token(Field::Dsc)
    }
}

/// The ids in decimal, joined by commas.
pub fn join_ids(ids: &[u64]) -> (s: String)
    ensures
        s@ == comma_joined(id_texts(ids@)),
{
    let mut s = String::new();
    let mut i: usize = 0;
    while i < ids.len()
        invariant
            i <= ids.len(),
            s@ == comma_joined(id_texts(ids@.take(i as int))),
        decreases ids.len() - i,
    {
        let text = to_decimal(ids[i]);
        push_joined(&mut s, i == 0, text.as_str());
        proof {
            let before = id_texts(ids@.take(i as int));
            lemma_comma_joined_push(before, text@);
            assert(id_texts(ids@.take(i + 1)) =~= before.push(text@));
        }
        i += 1;
    }
    assert(ids@.take(i as int) =~= ids@);
    s
}

/// The texts as they are, joined by commas.
pub fn join_texts(texts: &[String]) -> (s: String)
    ensures
        s@ == comma_joined(texts.deep_view()),
{
    let mut s = String::new();
    let mut i: usize = 0;
    while i < texts.len()
        invariant
            i <= texts.len(),
            s@ == comma_joined(texts.deep_view().take(i as int)),
        decreases texts.len() - i,
    {
        push_joined(&mut s, i == 0, texts[i].as_str());
        proof {
            let before = texts.deep_view().take(i as int);
            lemma_comma_joined_push(before, texts[i as int]@);
            assert(texts.deep_view().take(i + 1) =~= before.push(texts[i as int]@));
        }
        i += 1;
    }
    assert(texts.deep_view().take(i as int) =~= texts.deep_view());
    s
}

/// The wire names of the sizes, joined by commas.
pub fn join_sizes(sizes: &[ImageSize]) -> (s: String)
    ensures
        s@ == comma_joined(size_texts(sizes@)),
{
    let mut s = String::new();
    let mut i: usize = 0;
    while i < sizes.len()
        invariant
            i <= sizes.len(),
            s@ == comma_joined(size_texts(sizes@.take(i as int))),
        decreases sizes.len() - i,
    {
        let name = sizes[i].as_str();
        push_joined(&mut s, i == 0, name);
        proof {
            let before = size_texts(sizes@.take(i as int));
            lemma_comma_joined_push(before, name@);
            assert(size_texts(sizes@.take(i + 1)) =~= before.push(name@));
        }
        i += 1;
    }
    assert(sizes@.take(i as int) =~= sizes@);
    s
}

/// The text of a truth value on the wire.
pub fn bool_str(b: bool) -> (r: &'static str)
    ensures
        r@ == bool_text(b),
{
    if b {
        "true"
    } else {
        "false"
    }
}

/// Appends one token to a query string.
pub fn push_token(out: &mut String, key: &str, value: &str)
    ensures
        final(out)@ == old(out)@ + token_text(key@, value@),
{
    proof {
        reveal_strlit("&");
        reveal_strlit("=");
    }
    out.append("&");
    out.append(key);
    out.append("=");
    out.append(value);
    assert(out@ =~= old(out)@ + token_text(key@, value@));
}

} // verus!
