use rustyflame::advanced::{
    add_one, do_twice, outline_print, returns_closure, split_at_mut, takes_long_type, Animal, Big,
    Doggo, Meters, Millimeters, Point as GridPoint, Small,
};
use rustyflame::basics::{add, parse_ex, parse_if_number, plus_one, shadow2};
use rustyflame::collections::{
    count_occurrences, get_ordinal_suffix, mode_of_entries, pig_latin, pig_words, vec_med,
    vec_mode,
};
use rustyflame::generics::{
    first_word, longest, max_elem, max_elem_char, max_elem_i32, MixPoint, Pair,
    PairElementComparisonResult, Point,
};
use rustyflame::lists::{BadBox, GoodBox, List, List2};
use rustyflame::ownership::{
    borrow_and_modify_string, borrow_string, compute_length, find_nth_word,
};
use rustyflame::summary::TabloidNewsArticle;
use rustyflame::text::{decimal_digits, decimal_text, repeat_char};
use rustyflame::web::{response, route, starts_with};
use std::cell::Cell;
use std::rc::Rc;

#[test]
fn the_largest_element_is_found() {
    assert_eq!(max_elem_i32(&[32, 24, 525, 23, 14, 156]), 525);
    assert_eq!(max_elem_i32(&[23, 14, 156]), 156);
    assert_eq!(max_elem_i32(&[-3]), -3);
    assert_eq!(max_elem_char(&['H', 'e', 'l', 'l', 'o', '!']), 'o');
    assert_eq!(*max_elem(&[32, 24, 525, 23, 14, 156]), 525);
    assert_eq!(*max_elem(&['H', 'e', 'l', 'l', 'o', '!']), 'o');
    assert_eq!(*max_elem(&["b", "c", "a"]), "c");
    let ties = [(1, 'a'), (1, 'b')];
    assert_eq!(*max_elem(&ties), (1, 'b'));
    // what cannot be compared never takes the place of the largest so far
    let a = [1.0, f64::NAN, 0.5];
    assert_eq!(*max_elem(&a), 1.0);
}

#[test]
fn points_are_mixed() {
    let integer_point = Point { x: 5, y: 10 };
    let float_point = Point { x: 1.0, y: 4.0 };
    assert_eq!(*integer_point.x(), 5);
    let mixed = float_point.mixup(integer_point);
    assert_eq!(mixed.x, 1.0);
    assert_eq!(mixed.y, 10);
    let again = MixPoint { x: 1, y: 4.0 }.mixup(MixPoint { x: "a", y: 'b' });
    assert_eq!(again.x, 1);
    assert_eq!(again.y, 'b');
}

#[test]
fn pairs_are_compared() {
    assert_eq!(Pair::new(3, 5).cmp(), PairElementComparisonResult::SecondGtFirst);
    assert_eq!(Pair::new(5, 3).cmp(), PairElementComparisonResult::FirstGtSecond);
    assert_eq!(Pair::new(4, 4).cmp(), PairElementComparisonResult::BothEqual);
    assert_eq!(Pair::new(f64::NAN, 4.0).cmp(), PairElementComparisonResult::BothEqual);
    let pair = Pair::new("a", "b");
    assert_eq!(pair.first, "a");
    assert_eq!(pair.second, "b");
}

#[test]
fn the_longer_text_is_chosen() {
    assert_eq!(longest("ZA", "WARUDO"), "WARUDO");
    assert_eq!(longest("WARUDO", "ZA"), "WARUDO");
    assert_eq!(longest("ab", "cd"), "cd");
    assert_eq!(longest("é", "ab"), "ab");
    assert_eq!(longest("éé", "abc"), "éé");
}

#[test]
fn the_first_word_ends_at_the_first_space() {
    assert_eq!(first_word("Once upon a time"), "Once");
    assert_eq!(first_word("Once"), "Once");
    assert_eq!(first_word(" Once"), "");
    assert_eq!(first_word(""), "");
    assert_eq!(first_word("été chaud"), "été");
}

#[test]
fn the_nth_word_is_what_stands_before_the_nth_space() {
    let s = String::from("hello world wonderful");
    assert_eq!(find_nth_word(&s, 0), "hello");
    assert_eq!(find_nth_word(&s, 1), "world");
    // the last word ends with no space, so the whole text is given
    assert_eq!(find_nth_word(&s, 2), "hello world wonderful");
    assert_eq!(find_nth_word(&s, 7), "hello world wonderful");
    let gaps = String::from("a  b ");
    assert_eq!(find_nth_word(&gaps, 0), "a");
    assert_eq!(find_nth_word(&gaps, 1), "");
    assert_eq!(find_nth_word(&gaps, 2), "b");
    assert_eq!(find_nth_word(&String::from("héllo wörld x"), 1), "wörld");
    assert_eq!(find_nth_word(&String::new(), 0), "");
}

#[test]
fn strings_are_measured_and_extended() {
    assert_eq!(compute_length(String::from("hello")), (String::from("hello"), 5));
    assert_eq!(compute_length(String::from("été")), (String::from("été"), 5));
    assert_eq!(borrow_string(&String::from("hello")), 5);
    let mut s = String::from("hello");
    borrow_and_modify_string(&mut s);
    assert_eq!(s, "hello you and hello everybody!!");
}

#[test]
fn small_sums() {
    assert_eq!(shadow2(), 5);
    assert_eq!(add(3, 5), 8);
    assert_eq!(add(-3, 3), 0);
    assert_eq!(plus_one(5), 6);
    assert_eq!(parse_ex("42"), 42);
    assert_eq!(parse_ex("-7"), -7);
    assert_eq!(parse_if_number("42"), Some(42));
    assert_eq!(parse_if_number("+42"), Some(42));
    assert_eq!(parse_if_number("forty-two"), None);
    assert_eq!(parse_if_number(""), None);
    assert_eq!(parse_if_number("2147483648"), None);
    assert_eq!(parse_if_number(" 1"), None);
}

#[test]
fn ordinal_suffixes() {
    assert_eq!(get_ordinal_suffix(1), "th");
    assert_eq!(get_ordinal_suffix(3), "th");
    assert_eq!(get_ordinal_suffix(99), "th");
    assert_eq!(get_ordinal_suffix(100), "th");
    assert_eq!(get_ordinal_suffix(101), "st");
    assert_eq!(get_ordinal_suffix(102), "nd");
    assert_eq!(get_ordinal_suffix(103), "rd");
    assert_eq!(get_ordinal_suffix(104), "th");
    assert_eq!(get_ordinal_suffix(111), "st");
}

#[test]
fn the_median_is_the_middle_of_the_sorted_numbers() {
    assert_eq!(vec_med(&vec![1, 2, 3, 4, 5]), 3);
    assert_eq!(vec_med(&vec![5, 1, 4, 2, 3]), 3);
    assert_eq!(vec_med(&vec![4, 1, 3, 2]), 3);
    assert_eq!(vec_med(&vec![7]), 7);
    assert_eq!(vec_med(&vec![2, 2, 1]), 2);
}

#[test]
fn the_scan_for_the_mode_takes_a_number_whose_count_is_above_what_it_holds() {
    assert_eq!(mode_of_entries(&vec![]), 0);
    assert_eq!(mode_of_entries(&vec![(7, 1)]), 7);
    assert_eq!(mode_of_entries(&vec![(7, 1), (9, 8)]), 9);
    assert_eq!(mode_of_entries(&vec![(9, 8), (7, 1)]), 9);
    assert_eq!(mode_of_entries(&vec![(1, 2), (3, 2), (5, 4)]), 5);
    // a count is held against the number that the scan holds, not against its count
    assert_eq!(mode_of_entries(&vec![(10, 2), (3, 5)]), 10);
    assert_eq!(mode_of_entries(&vec![(3, 5), (10, 2)]), 3);
    assert_eq!(mode_of_entries(&vec![(-4, 1), (6, 1)]), 6);
    assert_eq!(mode_of_entries(&vec![(6, 1), (-4, 1)]), 6);
}

#[test]
fn occurrences_are_counted() {
    let counts = count_occurrences(&vec![1, 2, 2, 5, 2, 1]);
    assert_eq!(counts.len(), 3);
    assert_eq!(counts[&1], 2);
    assert_eq!(counts[&2], 3);
    assert_eq!(counts[&5], 1);
    assert_eq!(vec_mode(&vec![]), 0);
    assert_eq!(vec_mode(&vec![3, 3, 3, 3]), 3);
    assert_eq!(vec_mode(&vec![2]), 2);
    let mode = vec_mode(&vec![1, 2, 3, 4, 5]);
    assert!((1..=5).contains(&mode));
}

#[test]
fn pig_latin_moves_the_first_letter() {
    assert_eq!(pig_latin("Hello I am"), "ello-Hay -Iay m-aay ");
    assert_eq!(pig_latin("  first\tapple \n"), "irst-fay pple-aay ");
    assert_eq!(pig_latin(""), "");
    assert_eq!(pig_latin("   "), "");
    assert_eq!(pig_latin("été"), "té-éay ");
    assert_eq!(pig_words(&vec![vec!['a', 'b', 'c'], vec!['x']]), "bc-aay -xay ");
    assert_eq!(pig_words(&vec![]), "");
}

#[test]
fn lists_are_written_out() {
    let list = List::Cons(1, Box::new(List::Cons(2, Box::new(List::Cons(3, Box::new(List::Nil))))));
    assert_eq!(list.to_string(), "1, 2, 3, ");
    let none: List<i32> = List::Nil;
    assert_eq!(none.to_string(), "");
    let a = Rc::new(List2::Cons(5, Rc::new(List2::Cons(10, Rc::new(List2::Nil)))));
    let b = List2::Cons(3, Rc::clone(&a));
    let c = List2::Cons(4, Rc::clone(&a));
    assert_eq!(a.to_string(), "5, 10, ");
    assert_eq!(b.to_string(), "3, 5, 10, ");
    assert_eq!(c.to_string(), "4, 5, 10, ");
    assert!(Rc::ptr_eq(b.tail().unwrap(), &a));
    let end: List2<&str> = List2::Nil;
    assert!(end.tail().is_none());
}

#[test]
fn boxes_hold_their_value() {
    assert_eq!(BadBox::new(5).0, 5);
    let good = GoodBox::new(String::from("world"));
    assert_eq!(good.deref(), "world");
}

#[test]
fn a_tabloid_shows_its_first_twenty_bytes() {
    let article = TabloidNewsArticle {
        headline: String::from("LOUD"),
        location: String::from("Nowhere"),
        author: String::from("Nobody"),
        content: String::from("Amazing trick, but first a shitload of ads!!!"),
    };
    assert_eq!(article.to_string(), "Amazing trick, but f...");
    let short = TabloidNewsArticle {
        headline: String::new(),
        location: String::new(),
        author: String::new(),
        content: String::from("exactly twenty bytes"),
    };
    assert_eq!(short.to_string(), "exactly twenty bytes...");
}

#[test]
fn numbers_are_written_in_decimal() {
    assert_eq!(decimal_text(0), "0");
    assert_eq!(decimal_text(7), "7");
    assert_eq!(decimal_text(10), "10");
    assert_eq!(decimal_text(1234567890), "1234567890");
    assert_eq!(decimal_text(usize::MAX), usize::MAX.to_string());
    assert_eq!(decimal_digits(905), vec!['9', '0', '5']);
    assert_eq!(repeat_char('*', 3), "***");
    assert_eq!(repeat_char('*', 0), "");
}

#[test]
fn requests_are_routed() {
    let home = route(b"GET / HTTP/1.1\r\nHost: localhost\r\n\r\n");
    assert_eq!(home.status_line, "HTTP/1.1 200 OK");
    assert_eq!(home.filename, "resources/index.html");
    assert_eq!(home.delay_seconds, 0);
    let slow = route(b"GET /big_slep HTTP/1.1\r\n");
    assert_eq!(slow.status_line, "HTTP/1.1 200 OK");
    assert_eq!(slow.filename, "resources/index.html");
    assert_eq!(slow.delay_seconds, 5);
    for other in [&b"GET /nothing HTTP/1.1\r\n"[..], &b"GET / HTTP/1.1\r"[..], &b""[..], &[0u8; 1024][..]] {
        let missing = route(other);
        assert_eq!(missing.status_line, "HTTP/1.1 404 NOT FOUND");
        assert_eq!(missing.filename, "resources/404.html");
        assert_eq!(missing.delay_seconds, 0);
    }
    assert!(starts_with(b"abc", b"ab"));
    assert!(starts_with(b"abc", b""));
    assert!(starts_with(b"abc", b"abc"));
    assert!(!starts_with(b"abc", b"abcd"));
    assert!(!starts_with(b"abc", b"ac"));
}

#[test]
fn a_response_states_the_length_of_its_content() {
    assert_eq!(
        response("HTTP/1.1 200 OK", "<h1>Hello</h1>"),
        "HTTP/1.1 200 OK\r\nContent-Length: 14\r\n\r\n<h1>Hello</h1>"
    );
    assert_eq!(response("HTTP/1.1 404 NOT FOUND", ""), "HTTP/1.1 404 NOT FOUND\r\nContent-Length: 0\r\n\r\n");
    assert_eq!(response("S", "é"), "S\r\nContent-Length: 2\r\n\r\né");
}

#[test]
fn slices_are_split() {
    let mut v = vec![1, 2, 3, 4, 5, 6];
    let r = &mut v[..];
    let (a, b) = split_at_mut(r, 3);
    assert_eq!(a, &mut [1, 2, 3]);
    assert_eq!(b, &mut [4, 5, 6]);
    a[0] = 10;
    b[2] = 60;
    assert_eq!(v, vec![10, 2, 3, 4, 5, 60]);
    let (a, b) = split_at_mut(&mut v[..], 0);
    assert_eq!(a.len(), 0);
    assert_eq!(b.len(), 6);
    let (a, b) = split_at_mut(&mut v[..], 6);
    assert_eq!(a.len(), 6);
    assert_eq!(b.len(), 0);
}

#[test]
fn points_and_lengths_are_added() {
    assert_eq!(GridPoint { x: 1, y: 0 } + GridPoint { x: 2, y: 1 }, GridPoint { x: 3, y: 1 });
    assert_eq!(GridPoint { x: -1, y: 5 } + GridPoint { x: 1, y: -5 }, GridPoint { x: 0, y: 0 });
    assert_eq!(Millimeters(250) + Meters(2), Millimeters(2250));
}

#[test]
fn a_dog_barks_in_three_ways_and_has_two_names_for_its_young() {
    let dog = Doggo;
    assert_eq!(Small::bark(&dog), "*bork bork*");
    assert_eq!(Big::bark(&dog), "*BARK*");
    assert_eq!(Doggo::bark(&dog), "*bark bark*");
    assert_eq!(dog.bark(), "*bark bark*");
    assert_eq!(Doggo::baby_name(), "Spot");
    assert_eq!(<Doggo as Animal>::baby_name(), "puppy");
}

#[test]
fn a_text_is_framed() {
    assert_eq!(
        outline_print("(1, 3)"),
        vec!["**********", "*        *", "* (1, 3) *", "*        *", "**********"]
    );
    assert_eq!(outline_print(""), vec!["****", "*  *", "*  *", "*  *", "****"]);
    assert_eq!(outline_print("é"), vec!["******", "*    *", "* é *", "*    *", "******"]);
}

#[test]
fn functions_are_handed_on() {
    assert_eq!(add_one(10), 11);
    assert_eq!(do_twice(add_one, 10), 22);
    let calls = Cell::new(0);
    assert_eq!(
        do_twice(
            |x| {
                calls.set(calls.get() + 1);
                x * calls.get()
            },
            10
        ),
        30
    );
    takes_long_type(|| calls.set(calls.get() + 1));
    assert_eq!(calls.get(), 3);
    let returned_closure = returns_closure();
    assert_eq!(returned_closure(11), 12);
    assert_eq!(do_twice(returns_closure(), -1), 0);
}
