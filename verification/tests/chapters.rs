use rustyflame::coins::{plus_one, Coin};
use rustyflame::patterns::{
    ascii_letter_lateness, matching_literal, matching_literal2, matching_literal3, Point3d,
};
use rustyflame::summary::{
    returns_summarizable, NewsArticle, Summarizable, SummarizableWithDefault, TabloidNewsArticle,
    Tweet,
};
use rustyflame::users::{create_new_user, update_user};

#[test]
fn coins_have_their_values() {
    assert_eq!(Coin::Penny.value_in_cents(), 1);
    assert_eq!(Coin::Nickel.value_in_cents(), 5);
    assert_eq!(Coin::Dime.value_in_cents(), 10);
    assert_eq!(Coin::Quarter.value_in_cents(), 25);
}

#[test]
fn plus_one_adds_where_there_is_a_number() {
    assert_eq!(plus_one(Some(5)), Some(6));
    assert_eq!(plus_one(Some(-1)), Some(0));
    assert_eq!(plus_one(None), None);
}

#[test]
fn literals_are_named() {
    assert_eq!(matching_literal(1), "one");
    assert_eq!(matching_literal(2), "two");
    assert_eq!(matching_literal(3), "three");
    assert_eq!(matching_literal(42), "anything");
    assert_eq!(matching_literal2(1), "one or two");
    assert_eq!(matching_literal2(2), "one or two");
    assert_eq!(matching_literal2(3), "three");
    assert_eq!(matching_literal2(0), "anything");
    assert_eq!(matching_literal3(1), "one through two");
    assert_eq!(matching_literal3(5), "one through two");
    assert_eq!(matching_literal3(0), "anything");
    assert_eq!(matching_literal3(6), "anything");
}

#[test]
fn letters_are_early_or_late() {
    assert_eq!(ascii_letter_lateness('a'), "early ASCII letter");
    assert_eq!(ascii_letter_lateness('j'), "early ASCII letter");
    assert_eq!(ascii_letter_lateness('k'), "late ASCII letter");
    assert_eq!(ascii_letter_lateness('z'), "late ASCII letter");
    assert_eq!(ascii_letter_lateness('A'), "not an ASCII letter");
    assert_eq!(ascii_letter_lateness('{'), "not an ASCII letter");
}

#[test]
fn the_origin_is_at_zero() {
    assert_eq!(Point3d::origin(), Point3d { x: 0, y: 0, z: 0 });
}

#[test]
fn summaries_name_what_matters() {
    let tweet = Tweet {
        username: String::from("mother_horse_eyes"),
        content: String::from("what awaits us beyond the curtains?"),
        reply: false,
        retweet: false,
    };
    assert_eq!(tweet.summarize(), "mother_horse_eyes: what awaits us beyond the curtains?");
    let article = NewsArticle {
        headline: String::from("Headline"),
        location: String::from("Somewhere"),
        author: String::from("Someone"),
        content: String::from("Nothing much"),
    };
    assert_eq!(article.summarize(), "Headline, by Someone (Somewhere)");
    let tabloid = TabloidNewsArticle {
        headline: String::from("LOUD"),
        location: String::from("Nowhere"),
        author: String::from("Nobody"),
        content: String::from("Amazing trick, but first a word"),
    };
    assert_eq!(tabloid.summarize(), "Read more...");
    let given = returns_summarizable();
    assert_eq!(
        given.summarize(),
        "ProbablySomethingQuirky: Something very witty and imaginative, because twitter users are big brained"
    );
}

#[test]
fn users_are_made_and_renamed() {
    let user = create_new_user("Toto", "toto@gmail.com");
    assert_eq!(user.username, "Toto");
    assert_eq!(user.email, "toto@gmail.com");
    assert!(user.active);
    assert_eq!(user.sign_in_count, 1);
    let mut user = update_user(user, "Titi", "tiio@gmail.com");
    assert_eq!(user.username, "Titi");
    assert_eq!(user.email, "tiio@gmail.com");
    assert!(user.active);
    assert_eq!(user.sign_in_count, 1);
    user.active = false;
    user.sign_in_count = 7;
    let user = update_user(user, "Tata", "tata@gmail.com");
    assert!(!user.active);
    assert_eq!(user.sign_in_count, 7);
}
