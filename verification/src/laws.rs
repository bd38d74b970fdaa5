//! What holds of every request, whatever was set and in whatever order.

use vstd::prelude::*;

use crate::convert::{size_texts, token_text};
use crate::datatype::{
    all_recognized, first_unrecognized, named_sizes, Category, Field, ImageSize,
};
use crate::decimal::decimal;
use crate::request::{RequestView, Setting};
use crate::text::comma_joined;

verus! {

/// A setting is read back from the field it was written to, and leaves what
/// every other field holds untouched.
pub proof fn lemma_get_after_set(v: RequestView, setting: Setting, field: Field)
    ensures
        v.set(setting).get(field) == if field == setting.field() {
            Some(setting)
        } else {
            v.get(field)
        },
{
}

/// A setting decides the token of its own field and of no other: the token
/// is an ampersand, the field's key, an equals sign and the value's text, or
/// nothing at all where the value is the endpoint's default.
pub proof fn lemma_token_after_set(v: RequestView, setting: Setting, field: Field)
    ensures
        v.set(setting).token(field) == if field != setting.field() {
            v.token(field)
        } else if setting.is_default() {
            Seq::empty()
        } else {
            token_text(field.key(), setting.text())
        },
{
}

/// Setting one field twice leaves only the second value: the request, and
/// with it the URL, is the same as if the first call had never been made.
pub proof fn lemma_last_write_wins(v: RequestView, first: Setting, second: Setting)
    requires
        first.field() == second.field(),
    ensures
        v.set(first).set(second) == v.set(second),
        v.set(first).set(second).url() == v.set(second).url(),
{
}

/// Setting two different fields gives the same request, and with it the same
/// URL, in either order.
pub proof fn lemma_order_independent(v: RequestView, a: Setting, b: Setting)
    requires
        a.field() != b.field(),
    ensures
        v.set(a).set(b) == v.set(b).set(a),
        v.set(a).set(b).url() == v.set(b).set(a).url(),
{
}

/// The request in which nothing is set is valid, and a valid setting keeps a
/// valid request valid.
pub proof fn lemma_set_keeps_valid(v: RequestView, setting: Setting)
    ensures
        RequestView::unset().valid(),
        v.valid() && setting.valid() ==> v.set(setting).valid(),
{
}

/// The URL of a request in which nothing is set is the base and a question
/// mark, with no token behind it.
pub proof fn lemma_unset_url()
    ensures
        RequestView::unset().url() == "https://api.example.app/setu/v2?"@,
{
    reveal_strlit("https://api.example.app/setu/v2?");
    reveal_strlit("https://api.example.app/setu/v2");
    assert(RequestView::unset().url() =~= "https://api.example.app/setu/v2?"@);
}

/// The non-explicit rating is the endpoint's default: a request that holds
/// it has the URL of the same request with the rating unset.
pub proof fn lemma_default_rating_is_silent(v: RequestView)
    ensures
        v.set(Setting::Category(Category::NonR18)).url() == (RequestView {
            category: None,
            ..v
        }).url(),
{
}

/// A result count between 1 and 100 is valid, and its token is the key, an
/// equals sign and the count in decimal. Set alone, it is the whole query.
pub proof fn lemma_num_token(v: RequestView, n: usize)
    requires
        1 <= n <= 100,
    ensures
        Setting::Num(n).valid(),
        v.set(Setting::Num(n)).token(Field::Num) == "&result-count-key="@ + decimal(n as nat),
        RequestView::unset().set(Setting::Num(n)).url()
            == "https://api.example.app/setu/v2?&result-count-key="@ + decimal(n as nat),
{
    reveal_strlit("&result-count-key=");
    reveal_strlit("result-count-key");
    reveal_strlit("https://api.example.app/setu/v2?&result-count-key=");
    reveal_strlit("https://api.example.app/setu/v2");
    assert(v.set(Setting::Num(n)).token(Field::Num) =~= "&result-count-key="@ + decimal(
        n as nat,
    ));
    assert(RequestView::unset().set(Setting::Num(n)).url()
        =~= "https://api.example.app/setu/v2?&result-count-key="@ + decimal(n as nat));
}

/// Between one and five sizes are valid, and their token is the key, an
/// equals sign and the sizes' lower-case names, joined by commas in the
/// order in which they were given.
pub proof fn lemma_size_token(v: RequestView, sizes: Seq<ImageSize>)
    requires
        1 <= sizes.len() <= 5,
    ensures
        Setting::Size(sizes).valid(),
        v.set(Setting::Size(sizes)).token(Field::Size) == "&image-sizes-key="@ + comma_joined(
            size_texts(sizes),
        ),
{
    reveal_strlit("&image-sizes-key=");
    reveal_strlit("image-sizes-key");
    assert(v.set(Setting::Size(sizes)).token(Field::Size) =~= "&image-sizes-key="@ + comma_joined(
        size_texts(sizes),
    ));
}

/// Sizes written out by name and read back are the same sizes, in the same
/// order: no name of a size goes unrecognised.
pub proof fn lemma_names_read_back(sizes: Seq<ImageSize>)
    ensures
        all_recognized(size_texts(sizes)),
        named_sizes(size_texts(sizes)) == sizes,
{
    assert forall|i: int| 0 <= i < sizes.len() implies ImageSize::parse(
        #[trigger] size_texts(sizes)[i],
    ) == Some(sizes[i]) by {
        ImageSize::lemma_parse_name(sizes[i], sizes[i].name());
    }
    assert(named_sizes(size_texts(sizes)) =~= sizes);
}

/// A list of names has at most one first name that names no size, and it
/// has one exactly when not every name in it names a size.
pub proof fn lemma_first_unrecognized(names: Seq<Seq<char>>, i: int, j: int)
    ensures
        first_unrecognized(names, i) && first_unrecognized(names, j) ==> i == j,
        first_unrecognized(names, i) ==> !all_recognized(names),
        !all_recognized(names) ==> exists|k: int| first_unrecognized(names, k),
{
    if first_unrecognized(names, i) && first_unrecognized(names, j) {
        if i < j {
            assert(ImageSize::parse(names[i]) is Some);
        } else if j < i {
            assert(ImageSize::parse(names[j]) is Some);
        }
    }
    if !all_recognized(names) {
        let bad = choose|k: int| 0 <= k < names.len() && ImageSize::parse(names[k]) is None;
        lemma_first_before(names, bad);
    }
}

/// Where some name up to place `bad` names no size, a first such name
/// exists.
proof fn lemma_first_before(names: Seq<Seq<char>>, bad: int)
    requires
        0 <= bad < names.len(),
        ImageSize::parse(names[bad]) is None,
    ensures
        exists|k: int| first_unrecognized(names, k),
    decreases bad,
{
    if exists|k: int| 0 <= k < bad && ImageSize::parse(names[k]) is None {
        let earlier = choose|k: int| 0 <= k < bad && ImageSize::parse(names[k]) is None;
        lemma_first_before(names, earlier);
    } else {
        assert(first_unrecognized(names, bad));
    }
}

} // verus!
