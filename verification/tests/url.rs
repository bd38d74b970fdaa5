use image_query::convert::{bool_str, join_ids, join_sizes, join_texts, push_token, BASE_URL};
use image_query::decimal::{push_decimal, to_decimal};
use image_query::text::{push_joined, same_text};
use image_query::{Category, Error, Field, ImageSize, Request};

const BASE: &str = "https://api.example.app/setu/v2";

#[test]
fn unset_request_is_the_bare_base() {
    assert_eq!(BASE_URL, BASE);
    assert_eq!(
        Request::default().to_string(),
        "https://api.example.app/setu/v2?"
    );
}

#[test]
fn scenario_rating_count_author() {
    let url = Request::default()
        .category(Category::R18)
        .num(1)
        .unwrap()
        .uid(&[16731])
        .unwrap()
        .to_string();
    assert_eq!(
        url,
        "https://api.example.app/setu/v2?&content-rating-key=1&result-count-key=1&author-ids-key=16731"
    );
}

#[test]
fn scenario_in_another_call_order() {
    let url = Request::default()
        .uid(&[16731])
        .unwrap()
        .num(1)
        .unwrap()
        .category(Category::R18)
        .to_string();
    assert_eq!(
        url,
        "https://api.example.app/setu/v2?&content-rating-key=1&result-count-key=1&author-ids-key=16731"
    );
}

#[test]
fn non_explicit_rating_sends_nothing() {
    assert_eq!(
        Request::default().category(Category::NonR18).to_string(),
        Request::default().to_string()
    );
    let with = Request::default()
        .category(Category::NonR18)
        .num(3)
        .unwrap()
        .keyword("cat");
    let without = Request::default().num(3).unwrap().keyword("cat");
    assert_eq!(with.to_string(), without.to_string());
    assert_eq!(
        with.to_string(),
        "https://api.example.app/setu/v2?&result-count-key=3&keyword-key=cat"
    );
    assert_eq!(with.rendered(Field::Category), None);
    assert_ne!(with, without);
}

#[test]
fn ratings_have_distinct_tokens() {
    assert_eq!(
        Request::default().category(Category::R18).to_string(),
        "https://api.example.app/setu/v2?&content-rating-key=1"
    );
    assert_eq!(
        Request::default().category(Category::Mixed).to_string(),
        "https://api.example.app/setu/v2?&content-rating-key=2"
    );
}

#[test]
fn every_field_in_the_fixed_order() {
    let url = Request::default()
        .dsc(true)
        .date_before(1700000000000)
        .date_after(1600000000000)
        .proxy("i.example.net")
        .size(&[ImageSize::Regular, ImageSize::Original])
        .unwrap()
        .tag(&["blue sky", "sea"])
        .unwrap()
        .keyword("summer")
        .uid(&[3, 1, 2])
        .unwrap()
        .num(100)
        .unwrap()
        .category(Category::Mixed)
        .to_string();
    assert_eq!(
        url,
        "https://api.example.app/setu/v2?&content-rating-key=2&result-count-key=100&author-ids-key=3,1,2&keyword-key=summer&tags-key=blue sky,sea&image-sizes-key=regular,original&proxy-host-key=i.example.net&after-timestamp-key=1600000000000&before-timestamp-key=1700000000000&disable-auto-conversion-key=true"
    );
}

#[test]
fn lists_keep_their_order_and_their_repeats() {
    let url = Request::default()
        .size(&[ImageSize::Mini, ImageSize::Original, ImageSize::Mini])
        .unwrap()
        .uid(&[9, 9, 1])
        .unwrap()
        .to_string();
    assert_eq!(
        url,
        "https://api.example.app/setu/v2?&author-ids-key=9,9,1&image-sizes-key=mini,original,mini"
    );
}

#[test]
fn every_subset_of_sizes_in_every_rotation() {
    let all = [
        ImageSize::Original,
        ImageSize::Regular,
        ImageSize::Small,
        ImageSize::Thumb,
        ImageSize::Mini,
    ];
    for mask in 1u32..32 {
        for shift in 0..5usize {
            let mut picked: Vec<ImageSize> = Vec::new();
            for k in 0..5usize {
                let at = (k + shift) % 5;
                if mask & (1 << at) != 0 {
                    picked.push(all[at]);
                }
            }
            let names: Vec<&str> = picked.iter().map(|s| s.as_str()).collect();
            let url = Request::default().size(&picked).unwrap().to_string();
            assert_eq!(url, format!("{}?&image-sizes-key={}", BASE, names.join(",")));
            assert_eq!(url, url.to_lowercase());
            assert_eq!(
                Request::default().size_names(&names).unwrap().to_string(),
                url
            );
        }
    }
}

#[test]
fn last_write_wins_for_every_field() {
    let twice = Request::default()
        .category(Category::R18)
        .category(Category::Mixed)
        .num(5)
        .unwrap()
        .num(6)
        .unwrap()
        .uid(&[1, 2])
        .unwrap()
        .uid(&[3])
        .unwrap()
        .keyword("first")
        .keyword("second")
        .tag(&["a", "b", "c"])
        .unwrap()
        .tag(&["d"])
        .unwrap()
        .size(&[ImageSize::Small, ImageSize::Thumb])
        .unwrap()
        .size(&[ImageSize::Mini])
        .unwrap()
        .proxy("one.example.net")
        .proxy("two.example.net")
        .date_after(1)
        .date_after(2)
        .date_before(3)
        .date_before(4)
        .dsc(true)
        .dsc(false);
    let once = Request::default()
        .category(Category::Mixed)
        .num(6)
        .unwrap()
        .uid(&[3])
        .unwrap()
        .keyword("second")
        .tag(&["d"])
        .unwrap()
        .size(&[ImageSize::Mini])
        .unwrap()
        .proxy("two.example.net")
        .date_after(2)
        .date_before(4)
        .dsc(false);
    assert_eq!(twice, once);
    assert_eq!(twice.to_string(), once.to_string());
    assert_eq!(
        twice.to_string(),
        "https://api.example.app/setu/v2?&content-rating-key=2&result-count-key=6&author-ids-key=3&keyword-key=second&tags-key=d&image-sizes-key=mini&proxy-host-key=two.example.net&after-timestamp-key=2&before-timestamp-key=4&disable-auto-conversion-key=false"
    );
}

#[test]
fn rating_set_back_to_non_explicit_leaves_no_trace() {
    let url = Request::default()
        .category(Category::R18)
        .category(Category::NonR18)
        .to_string();
    assert_eq!(url, "https://api.example.app/setu/v2?");
}

fn apply(request: Request, which: usize) -> Request {
    match which {
        0 => request.category(Category::Mixed),
        1 => request.num(42).unwrap(),
        2 => request.uid(&[7, 8]).unwrap(),
        3 => request.keyword("moon"),
        4 => request.tag(&["night", "city"]).unwrap(),
        5 => request.size(&[ImageSize::Thumb, ImageSize::Small]).unwrap(),
        6 => request.proxy("i.example.org"),
        7 => request.date_after(11),
        8 => request.date_before(22),
        _ => request.dsc(true),
    }
}

#[test]
fn any_two_fields_commute() {
    for a in 0..10usize {
        for b in 0..10usize {
            if a != b {
                let ab = apply(apply(Request::default(), a), b);
                let ba = apply(apply(Request::default(), b), a);
                assert_eq!(ab, ba);
                assert_eq!(ab.to_string(), ba.to_string());
            }
        }
    }
}

#[test]
fn texts_are_sent_as_they_are() {
    let url = Request::default()
        .keyword("a b&c=d,e")
        .tag(&["x,y", "", "z"])
        .unwrap()
        .proxy("host/path?")
        .to_string();
    assert_eq!(
        url,
        "https://api.example.app/setu/v2?&keyword-key=a b&c=d,e&tags-key=x,y,,z&proxy-host-key=host/path?"
    );
}

#[test]
fn rendered_gives_each_value_text() {
    let request = Request::default()
        .category(Category::R18)
        .uid(&[10, 200, 3000])
        .unwrap()
        .dsc(true);
    assert_eq!(request.rendered(Field::Category), Some(String::from("1")));
    assert_eq!(request.rendered(Field::Num), None);
    assert_eq!(request.rendered(Field::Uid), Some(String::from("10,200,3000")));
    assert_eq!(request.rendered(Field::Dsc), Some(String::from("true")));
    assert_eq!(request.rendered(Field::Keyword), None);
}

#[test]
fn push_field_adds_a_token_or_nothing() {
    let request = Request::default().num(9).unwrap();
    let mut out = String::from("x");
    request.push_field(&mut out, Field::Category);
    assert_eq!(out, "x");
    request.push_field(&mut out, Field::Num);
    assert_eq!(out, "x&result-count-key=9");
}

#[test]
fn string_from_request_is_the_url() {
    let request = Request::default().num(2).unwrap().dsc(false);
    let url = request.to_string();
    assert_eq!(String::from(request), url);
    assert_eq!(
        url,
        "https://api.example.app/setu/v2?&result-count-key=2&disable-auto-conversion-key=false"
    );
}

#[test]
fn clone_holds_the_same_request() {
    let request = Request::default()
        .tag(&["a", "b"])
        .unwrap()
        .uid(&[1])
        .unwrap()
        .size(&[ImageSize::Small])
        .unwrap()
        .keyword("k")
        .proxy("p");
    let copy = request.clone();
    assert_eq!(copy, request);
    assert_eq!(copy.to_string(), request.to_string());
}

#[test]
fn decimal_text_of_numbers() {
    assert_eq!(to_decimal(0), "0");
    assert_eq!(to_decimal(7), "7");
    assert_eq!(to_decimal(9), "9");
    assert_eq!(to_decimal(10), "10");
    assert_eq!(to_decimal(100), "100");
    assert_eq!(to_decimal(1001), "1001");
    assert_eq!(to_decimal(16731), "16731");
    assert_eq!(to_decimal(1234567890), "1234567890");
    assert_eq!(to_decimal(u64::MAX), "18446744073709551615");
    for n in 0..2000u64 {
        assert_eq!(to_decimal(n), format!("{}", n));
    }
}

#[test]
fn push_decimal_appends() {
    let mut out = String::from("n=");
    push_decimal(&mut out, 405);
    assert_eq!(out, "n=405");
    push_decimal(&mut out, 0);
    assert_eq!(out, "n=4050");
}

#[test]
fn joins_put_commas_between_neighbours() {
    assert_eq!(join_ids(&[]), "");
    assert_eq!(join_ids(&[5]), "5");
    assert_eq!(join_ids(&[5, 0, 12]), "5,0,12");
    assert_eq!(join_texts(&[]), "");
    assert_eq!(join_texts(&[String::from("a")]), "a");
    assert_eq!(
        join_texts(&[String::from("a"), String::from(""), String::from("bc")]),
        "a,,bc"
    );
    assert_eq!(join_sizes(&[]), "");
    assert_eq!(join_sizes(&[ImageSize::Thumb]), "thumb");
    assert_eq!(
        join_sizes(&[ImageSize::Thumb, ImageSize::Regular]),
        "thumb,regular"
    );
}

#[test]
fn push_joined_adds_a_comma_unless_first() {
    let mut out = String::new();
    push_joined(&mut out, true, "a");
    assert_eq!(out, "a");
    push_joined(&mut out, false, "b");
    assert_eq!(out, "a,b");
}

#[test]
fn push_token_writes_ampersand_key_equals_value() {
    let mut out = String::from("u?");
    push_token(&mut out, "k", "v");
    assert_eq!(out, "u?&k=v");
    push_token(&mut out, "", "");
    assert_eq!(out, "u?&k=v&=");
}

#[test]
fn truth_values_as_text() {
    assert_eq!(bool_str(true), "true");
    assert_eq!(bool_str(false), "false");
}

#[test]
fn same_text_compares_characters() {
    assert!(same_text("", ""));
    assert!(same_text("mini", "mini"));
    assert!(!same_text("mini", "min"));
    assert!(!same_text("mini", "mink"));
    assert!(!same_text("small", "thumb"));
    assert!(same_text("größe", "größe"));
    assert!(!same_text("größe", "grösse"));
}

#[test]
fn errors_compare_by_what_they_say() {
    let a = Request::default().num(0).unwrap_err();
    let b = Request::default().num(0).unwrap_err();
    let c = Request::default().num(101).unwrap_err();
    assert_eq!(a, b);
    assert_ne!(a, c);
    assert!(matches!(a, Error::OutOfRange { actual: 0, .. }));
}
