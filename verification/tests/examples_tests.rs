//! Tests for the example modules around the dispatcher.

use std::cell::RefCell;

use workpool::art::{mix, PrimaryColor, SecondaryColor};
use workpool::closet::{shoes_in_my_size, Shoe};
use workpool::lifetimes::{first, longer, longer_1, ImportantExecpt};
use workpool::numbers::Counter;
use workpool::ownership::{
    can_change, cannot_change, func_return, gives_ownership, takes_and_gives_back,
};
use workpool::screen::{Button, Screen};
use workpool::blog::Post;
use workpool::guess::{secret_guess, Guess, Hint};
use workpool::news::{returns_summarizable, NewsArticle, Summary, Tweet};
use workpool::numbers::{add_two, fib};
use workpool::rect::Rectangle;
use workpool::restaurant::Breakfast;
use workpool::tracker::{quota_level, LimitTracker, Messenger, QuotaLevel};
use workpool::words::{caculate_length, first_word, first_word_improvement, get_first_word, greeting};

#[test]
fn another() {}

#[test]
fn it_works() {
    assert_eq!(2 + 2, 4);
}

#[test]
fn large_can_hold_smaller() {
    let larger = Rectangle {
        width: 8,
        height: 7,
    };
    let smaller = Rectangle {
        width: 5,
        height: 1,
    };

    assert!(larger.can_hold(&smaller));
}

#[test]
fn smaller_cannot_hold_larger() {
    let larger = Rectangle {
        width: 8,
        height: 7,
    };
    let smaller = Rectangle {
        width: 5,
        height: 1,
    };
    assert!(!smaller.can_hold(&larger));
}

#[test]
fn it_adds_tow() {
    assert_eq!(4, add_two(2));
}

#[test]
fn main_it_works() -> Result<(), String> {
    if 2 + 2 == 4 {
        Ok(())
    } else {
        Err(String::from("two plus tow does not equal four"))
    }
}

#[test]
fn add_two_and_two() {
    assert_eq!(4, add_two(2));
}

#[test]
fn add_three_and_two() {
    assert_eq!(5, add_two(3));
}

#[test]
fn one_hundred() {
    assert_eq!(102, add_two(100));
}

#[test]
fn internal() {
    assert_eq!(4, add_two(2));
}

struct MockMessenger {
    sent_messages: RefCell<Vec<String>>,
}

impl MockMessenger {
    fn new() -> MockMessenger {
        MockMessenger {
            sent_messages: RefCell::new(vec![]),
        }
    }
}

impl Messenger for MockMessenger {
    fn send(&self, message: &str) {
        self.sent_messages.borrow_mut().push(String::from(message));
    }
}

#[test]
fn it_sends_an_over_75_percent_warning_message() {
    let mock_messenger = MockMessenger::new();
    let mut limit_tracker = LimitTracker::new(&mock_messenger, 100);

    limit_tracker.set_value(80);

    assert_eq!(mock_messenger.sent_messages.borrow_mut().len(), 1);
}

#[test]
fn tracker_message_matches_level() {
    let mock_messenger = MockMessenger::new();
    let mut limit_tracker = LimitTracker::new(&mock_messenger, 100);

    limit_tracker.set_value(50);
    assert!(mock_messenger.sent_messages.borrow().is_empty());

    limit_tracker.set_value(90);
    limit_tracker.set_value(100);
    let sent = mock_messenger.sent_messages.borrow();
    assert_eq!(sent.len(), 2);
    assert_eq!(
        sent[0],
        "Urgent warning: You've used up over 90% of your quota!"
    );
    assert_eq!(sent[1], "Error: You are over your quota!");
}

#[test]
fn quota_levels_at_the_thresholds() {
    assert_eq!(quota_level(74, 100), QuotaLevel::Quiet);
    assert_eq!(quota_level(75, 100), QuotaLevel::Warning);
    assert_eq!(quota_level(89, 100), QuotaLevel::Warning);
    assert_eq!(quota_level(90, 100), QuotaLevel::Urgent);
    assert_eq!(quota_level(99, 100), QuotaLevel::Urgent);
    assert_eq!(quota_level(100, 100), QuotaLevel::Exceeded);
    assert_eq!(quota_level(0, 1), QuotaLevel::Quiet);
    assert_eq!(quota_level(1, 1), QuotaLevel::Exceeded);
}

#[test]
fn guess_round_trips_its_value() {
    let g = Guess::new(42);
    assert_eq!(g.value(), 42);
}

#[test]
fn guess_hints_follow_the_secret() {
    let secret = Guess::new(50);
    assert_eq!(Guess::new(49).compare_to(&secret), Hint::TooSmall);
    assert_eq!(Guess::new(51).compare_to(&secret), Hint::TooBig);
    assert_eq!(Guess::new(50).compare_to(&secret), Hint::Correct);
}

#[test]
fn secret_guess_is_in_range() {
    for _ in 0..50 {
        let g = secret_guess();
        assert!(1 <= g.value() && g.value() <= 100);
    }
}

#[test]
fn post_shows_content_only_once_published() {
    let mut post = Post::new();
    post.add_text("I ate a salad for lunch today");
    assert_eq!(post.content(), "");

    post.request_review();
    assert_eq!(post.content(), "");

    post.approve();
    assert_eq!(post.content(), "I ate a salad for lunch today");
}

#[test]
fn approving_a_draft_does_nothing() {
    let mut post = Post::new();
    post.add_text("not reviewed yet");
    post.approve();
    assert_eq!(post.content(), "");
}

#[test]
fn rectangle_area_and_growth() {
    let mut rect = Rectangle::create(30, 50);
    assert_eq!(rect.area(), 1500);
    assert!(rect.wider(&Rectangle::create(20, 90)));
    rect.add_height();
    assert_eq!(rect.height, 51);
}

#[test]
fn largest_of_the_list() {
    let number_list = vec![34, 50, 25, 100, 65];
    assert_eq!(workpool::numbers::largest(&number_list), 100);
    assert_eq!(workpool::numbers::largest(&[7]), 7);
    assert_eq!(workpool::numbers::largest(&[-3, -9, -1]), -1);
}

#[test]
fn mixup_swaps_second_coordinates() {
    let a = workpool::points::Point { x: 5, y: 10.4f64 };
    let b = workpool::points::Point { x: "Hello", y: 'c' };
    assert_eq!(*a.x(), 5);
    let mixed = a.mixup(b);
    assert_eq!(mixed.x, 5);
    assert_eq!(mixed.y, 'c');
}

#[test]
fn build_site_fills_the_record() {
    let s = workpool::site::build_site(String::from("Singerlio"), String::from("Chian"));
    assert_eq!(s.name, "Singerlio");
    assert_eq!(s.nation, "Chian");
    assert_eq!(s.domain, "www.aa.com");
    assert_eq!(s.found, 200);
}

#[test]
fn errors_propagate_unchanged() {
    assert_eq!(workpool::fallible::f(10), Ok(10));
    assert_eq!(workpool::fallible::f(-1), Err(false));
    assert_eq!(workpool::fallible::g1(10), Ok(10));
    assert_eq!(workpool::fallible::g1(-1), Err(false));
    assert_eq!(workpool::fallible::g(0), Ok(0));
    assert_eq!(workpool::fallible::g(-5), Err(false));
}

#[test]
fn adders_add() {
    assert_eq!(workpool::numbers::add(3, 2), 5);
    assert_eq!(workpool::numbers::add_one(5), 6);
    assert_eq!(workpool::numbers::internal_adder(2, 2), 4);
}

#[test]
fn fib_small_values() {
    assert_eq!(fib(0), 0);
    assert_eq!(fib(1), 1);
    assert_eq!(fib(2), 1);
    assert_eq!(fib(3), 2);
    assert_eq!(fib(8), 21);
}

#[test]
fn greeting_names_the_guest() {
    assert_eq!(greeting("Carol"), "Hello Carol!");
}

#[test]
fn first_word_stops_at_the_space() {
    let s = String::from("hello world");
    assert_eq!(first_word(&s), 5);
    assert_eq!(get_first_word(&s), "hello");
    assert_eq!(first_word_improvement("hello world"), "hello");
    assert_eq!(first_word_improvement("broadcast"), "broadcast");
    assert_eq!(caculate_length(&s), 11);
}

#[test]
fn summaries_follow_their_specs() {
    let tweet = Tweet {
        username: String::from("horse_ebooks"),
        content: String::from("of course, as you probably already know, people"),
        reply: false,
        retweet: false,
    };
    assert_eq!(
        tweet.summarize(),
        "horse_ebooks: of course, as you probably already know, people"
    );
    assert_eq!(tweet.summarize_author(), "@horse_ebooks");

    let article = NewsArticle {
        headline: String::from("Penguins win the Stanley Cup Championship!"),
        location: String::from("Pittsburgh, PA, USA"),
        author: String::from("Iceburgh"),
        content: String::from("The Pittsburgh Penguins once again are the best."),
    };
    assert_eq!(
        article.summarize(),
        "Penguins win the Stanley Cup Championship!, by Iceburgh (Pittsburgh, PA, USA)"
    );
    assert_eq!(article.summarize_author(), "Iceburgh");

    let t = returns_summarizable();
    assert_eq!(t.username, "horse_ebooks");
    assert!(!t.reply && !t.retweet);
}

#[test]
fn mixing_primaries_gives_orange() {
    assert_eq!(
        mix(PrimaryColor::Red, PrimaryColor::Yellow),
        SecondaryColor::Orange
    );
}

#[test]
fn filter_by_size() {
    let shoes = vec![
        Shoe {
            size: 10,
            style: String::from("sneaker"),
        },
        Shoe {
            size: 13,
            style: String::from("sandal"),
        },
        Shoe {
            size: 10,
            style: String::from("boot"),
        },
    ];

    let in_my_size = shoes_in_my_size(shoes, 10);

    assert_eq!(in_my_size.len(), 2);
    assert_eq!(in_my_size[0].style, "sneaker");
    assert_eq!(in_my_size[1].style, "boot");
}

#[test]
fn counter_tells_the_first_five() {
    let mut counter = Counter::new();
    assert_eq!(counter.next(), Some(1));
    assert_eq!(counter.next(), Some(2));
    assert_eq!(counter.next(), Some(3));
    assert_eq!(counter.next(), Some(4));
    assert_eq!(counter.next(), Some(5));
    assert_eq!(counter.next(), None);
    assert_eq!(counter.next(), None);
}

#[test]
fn longer_picks_the_longer_string() {
    assert_eq!(longer("long string is long", "short"), "long string is long");
    assert_eq!(longer("rust", "ecmascript"), "ecmascript");
    assert_eq!(longer("tie", "one"), "tie");
    assert_eq!(longer_1("left", "right"), "left");
    assert_eq!(first("anything"), "anything");
}

#[test]
fn excerpts_rank_level_three() {
    let novel = String::from("Call me Ishmael. Some years ago..");
    let i = ImportantExecpt {
        part: get_first_word(&novel),
    };
    assert_eq!(i.level(), 3);
    assert_eq!(i.part, "Call");
}

#[test]
fn ownership_moves_strings_whole() {
    assert_eq!(gives_ownership(), "hello");
    assert_eq!(takes_and_gives_back(String::from("hello")), "hello");
    assert_eq!(func_return(), "hello");

    let mut s = String::from("hello");
    assert_eq!(cannot_change(&s), 5);
    can_change(&mut s);
    assert_eq!(s, "hello, world");
}

#[test]
fn screen_runs_over_its_components() {
    let screen = Screen {
        components: vec![
            Button {
                width: 50,
                height: 10,
            },
            Button {
                width: 30,
                height: 20,
            },
        ],
    };
    screen.run();
}

#[test]
fn front_of_house_is_callable() {
    workpool::restaurant::add_to_waitlist();
    workpool::restaurant::eat_at_waitlist();
    workpool::restaurant::eat_at_restaurant();
    workpool::nation::govern();
    workpool::nation::legislate();
    workpool::manager::govern();
    workpool::manager::legislate();
    let state_meal = workpool::nation::Breakfast::summer("Sourdough");
    assert_eq!(state_meal.toast, "Sourdough");
    let managed_meal = workpool::manager::Breakfast::summer("Brioche");
    assert_eq!(managed_meal.toast, "Brioche");
}

#[test]
fn summer_breakfast_comes_with_peaches() {
    let mut meal = Breakfast::summer("Rye");
    assert_eq!(meal.toast, "Rye");
    meal.toast = String::from("Wheat");
    assert_eq!(meal.toast, "Wheat");
}
