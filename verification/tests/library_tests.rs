use book_examples::closures::{Cacher, WorkoutPlan, workout_plan};
use book_examples::coins::{Coin, CoinState, UsState, plus_one, value_in_cents, value_in_cents_state};
use book_examples::functions;
use book_examples::generics::{largest as first_of, Point};
use book_examples::hashmaps::word_count;
use book_examples::closures::{capture_env, not_working};
use book_examples::hashmaps::hashmap_ownership;
use book_examples::iterators::{
    calling_next_counter, iterator_next, iterator_sum, produce_other_iterator,
    test_filters_by_size, using_other_iterator_trait_methods, Counter, Shoe, shoes_in_my_size,
};
use book_examples::restaurant::eat_at_restaurant2;
use book_examples::strings::valid_strings;
use book_examples::lifetimes::{longest, longest2, ImportantExcerpt};
use book_examples::references::{calculate_length, change};
use book_examples::restaurant::back_of_house::Breakfast;
use book_examples::shapes::Rectangle;
use book_examples::slices::{first_word, first_word_slice_param};
use book_examples::text::{contains_substr, split_lines, split_words};
use book_examples::traits::{largest, returns_summarizable, NewsArticle, Summary, Tweet};

#[test]
fn counter_yields_one_to_five() {
    let mut counter = Counter::new();

    assert_eq!(counter.next(), Some(1));
    assert_eq!(counter.next(), Some(2));
    assert_eq!(counter.next(), Some(3));
    assert_eq!(counter.next(), Some(4));
    assert_eq!(counter.next(), Some(5));
    assert_eq!(counter.next(), None);
}

#[test]
fn shoes_filter_keeps_only_my_size() {
    let shoes = vec![
        Shoe {
            size: 10,
            style: String::from("sneaker"),
        },
        Shoe {
            size: 13,
            style: String::from("sandal"),
        },
        Shoe {
            size: 10,
            style: String::from("boot"),
        },
    ];

    let in_my_size = shoes_in_my_size(shoes, 10);

    assert_eq!(
        in_my_size,
        vec![
            Shoe {
                size: 10,
                style: String::from("sneaker")
            },
            Shoe {
                size: 10,
                style: String::from("boot")
            },
        ]
    );
}

#[test]
fn workout_plans_follow_intensity_and_luck() {
    assert_eq!(workout_plan(10, 7), WorkoutPlan::PushupsAndSitups(10, 10));
    assert_eq!(workout_plan(30, 3), WorkoutPlan::TakeABreak);
    assert_eq!(workout_plan(30, 4), WorkoutPlan::Run(30));
}

#[test]
fn cacher_remembers_its_first_result() {
    let mut cache = Cacher::new(|n| n + 1);
    assert_eq!(5, cache.value(4));
    assert_eq!(5, cache.value(10));
}

#[test]
fn coin_values_in_cents() {
    assert_eq!(1, value_in_cents(Coin::Penny));
    assert_eq!(5, value_in_cents(Coin::Nickel));
    assert_eq!(10, value_in_cents(Coin::Dime));
    assert_eq!(25, value_in_cents(Coin::Quarter));
    assert_eq!(25, value_in_cents_state(CoinState::Quarter(UsState::Alaska)));
    assert_eq!(1, value_in_cents_state(CoinState::Penny));
}

#[test]
fn plus_one_steps_through_an_option() {
    assert_eq!(Some(6), plus_one(Some(5)));
    assert_eq!(None, plus_one(None));
}

#[test]
fn five_and_plus_one() {
    assert_eq!(5, functions::five());
    assert_eq!(6, functions::plus_one(functions::five()));
}

#[test]
fn point_exposes_its_first_coordinate() {
    let p = Point { x: 5, y: 10 };
    assert_eq!(&5, p.x());
    let list = [3, 1, 2];
    assert_eq!(&3, first_of(&list));
}

#[test]
fn largest_finds_the_greatest_element() {
    let number_list = vec![34, 50, 25, 100, 65];
    assert_eq!(100, largest(&number_list));

    let char_list = vec!['y', 'm', 'a', 'q'];
    assert_eq!('y', largest(&char_list));
}

#[test]
fn word_count_counts_each_word_once() {
    let words = vec![
        String::from("hello"),
        String::from("world"),
        String::from("wonderful"),
        String::from("world"),
    ];
    let counts = word_count(&words);
    assert_eq!(3, counts.len());
    assert!(counts.contains(&(String::from("hello"), 1)));
    assert!(counts.contains(&(String::from("world"), 2)));
    assert!(counts.contains(&(String::from("wonderful"), 1)));
}

#[test]
fn split_words_drops_extra_white_space() {
    let words: Vec<&str> = split_words("  hello   world \t wonderful\nworld ");
    assert_eq!(vec!["hello", "world", "wonderful", "world"], words);
}

#[test]
fn split_lines_matches_str_lines() {
    let text = "one\ntwo\r\nthree\n";
    let ours: Vec<&str> = split_lines(text);
    let std_lines: Vec<&str> = text.lines().collect();
    assert_eq!(std_lines, ours);
    assert_eq!(vec!["one", "two", "three"], ours);
}

#[test]
fn contains_substr_finds_needles() {
    assert!(contains_substr("productive", "duct"));
    assert!(!contains_substr("productive", "Duct"));
    assert!(contains_substr("anything", ""));
    assert!(!contains_substr("", "a"));
}

#[test]
fn longest_picks_the_longer_string() {
    let string1 = String::from("abcd");
    let string2 = "xyz";
    assert_eq!("abcd", longest(string1.as_str(), string2));
    assert_eq!("left", longest2("left", "right"));
}

#[test]
fn excerpt_level_is_three() {
    let novel = String::from("Call me Ishmael. Some years ago...");
    let first_sentence = novel.split('.').next().expect("Could not find a '.'");
    let i = ImportantExcerpt {
        part: first_sentence,
    };
    assert_eq!(3, i.level());
    assert_eq!("Call me Ishmael", i.part);
}

#[test]
fn first_word_stops_at_the_first_space() {
    let s = String::from("hello world");
    assert_eq!("hello", first_word(&s));
    assert_eq!("hello", first_word_slice_param("hello world"));
    assert_eq!("hello", first_word_slice_param("hello"));
    assert_eq!("", first_word_slice_param(" leading"));
}

#[test]
fn string_length_and_growth() {
    let s1 = String::from("hello");
    assert_eq!(5, calculate_length(&s1));
    let mut s = String::from("hello");
    change(&mut s);
    assert_eq!("hello, world", s);
}

#[test]
fn summaries_name_their_sources() {
    let article = NewsArticle {
        headline: String::from("Penguins win the Stanley Cup Championship!"),
        location: String::from("Pittsburgh, PA, USA"),
        author: String::from("Iceburgh"),
        content: String::from("The Pittsburgh Penguins once again are the best."),
    };
    assert_eq!(
        "Penguins win the Stanley Cup Championship!, by Iceburgh (Pittsburgh, PA, USA)",
        article.summarize()
    );
    assert_eq!("(Read more...)", article.summarize_default());

    let tweet = Tweet {
        username: String::from("horse_ebooks"),
        content: String::from("of course, as you probably already know, people"),
        reply: false,
        retweet: false,
    };
    assert_eq!(
        "horse_ebooks: of course, as you probably already know, people",
        tweet.summarize()
    );

    let tweet2 = returns_summarizable();
    assert_eq!(
        "horse_ebooks: of course, as you probably already know, people",
        tweet2.summarize()
    );
}

#[test]
fn summer_breakfast_takes_the_chosen_toast() {
    let mut meal = Breakfast::summer("Rye");
    assert_eq!("Rye", meal.toast);
    meal.toast = String::from("Wheat");
    assert_eq!("Wheat", meal.toast);
}

#[test]
fn checked_demos_run() {
    iterator_next();
    iterator_sum();
    produce_other_iterator();
    test_filters_by_size();
    calling_next_counter();
    assert_eq!(18, using_other_iterator_trait_methods());
    capture_env();
    not_working();
    valid_strings();
    hashmap_ownership();
    eat_at_restaurant2();
}

#[test]
fn rectangle_area_and_square() {
    let rect = Rectangle {
        width: 30,
        height: 50,
    };
    assert_eq!(1500, rect.area());
    let square = Rectangle::square(10);
    assert_eq!(10, square.width);
    assert_eq!(10, square.height);
    assert!(rect.can_hold(&square));
}
