use std::cell::RefCell;

use handles::boxes::MyBox;
use handles::dining::{eat_at_restaurant, Appetizer, Breakfast};
use handles::enums::{addOne, value_in_cents, Coin, IpAddrRevised, Message, UsState};
use handles::generics::{largest, Point};
use handles::guessing::{draw_secret, evaluate_guess, GuessOutcome};
use handles::inventory::{Inventory, ShirtColor};
use handles::lifetimes::{longest, ImportantExcerpt};
use handles::limit::{check_quota, warning_text, LimitTracker, Messenger, QuotaLevel};
use handles::ownership::{build_user, calculate_length, first_word};
use handles::posts::Post;
use handles::rectangle::Rectangle;
use handles::screen::{Draw, Screen};
use handles::summaries::{notify, NewsArticle, Summary, Tweet};

#[test]
fn it_works() {
    let result = 2 + 2;
    assert_eq!(result, 4);
}

#[test]
fn larger_can_hold_smaller() {
    let larger = Rectangle { width: 8, height: 7 };
    let smaller = Rectangle { width: 5, height: 1 };

    assert!(larger.can_hold(&smaller));
}

#[test]
fn smaller_cannot_hold_larger() {
    let larger = Rectangle { width: 8, height: 7 };
    let smaller = Rectangle { width: 5, height: 1 };

    assert!(!smaller.can_hold(&larger));
}

#[test]
fn assert_eq_success() {
    assert_eq!(4, 4);
}

#[test]
#[should_panic]
fn greater_than_100() {
    assert!(100 > 101);
}

#[test]
fn iterator_demonstration() {
    let v1 = vec![1, 2, 3];

    let mut v1_iter = v1.iter();

    assert_eq!(v1_iter.next(), Some(&1));
    assert_eq!(v1_iter.next(), Some(&2));
    assert_eq!(v1_iter.next(), Some(&3));
    assert_eq!(v1_iter.next(), None);
}

struct MockMessenger {
    sent_messages: RefCell<Vec<String>>,
}

impl MockMessenger {
    fn new() -> MockMessenger {
        MockMessenger { sent_messages: RefCell::new(vec![]) }
    }
}

impl Messenger for MockMessenger {
    fn send(&self, message: &str) {
        self.sent_messages.borrow_mut().push(String::from(message));
    }
}

#[test]
fn it_sends_an_over_75_percent_warning_message() {
    let mock_messenger = MockMessenger::new();
    let mut limit_tracker = LimitTracker::new(&mock_messenger, 100);

    limit_tracker.set_value(80);

    assert_eq!(mock_messenger.sent_messages.borrow().len(), 1);
}

#[test]
fn limit_tracker_thresholds() {
    let mock = MockMessenger::new();
    let mut tracker = LimitTracker::new(&mock, 100);
    tracker.set_value(50);
    assert_eq!(mock.sent_messages.borrow().len(), 0);
    tracker.set_value(75);
    assert_eq!(
        mock.sent_messages.borrow().last().unwrap(),
        "Warning: You've used up over 75% of your quota!"
    );
    tracker.set_value(90);
    assert_eq!(
        mock.sent_messages.borrow().last().unwrap(),
        "Urgent warning: You've used up over 90% of your quota!"
    );
    tracker.set_value(100);
    assert_eq!(mock.sent_messages.borrow().last().unwrap(), "Error: You are over your quota!");
    assert_eq!(mock.sent_messages.borrow().len(), 3);
}

#[test]
fn quota_levels_at_the_boundaries() {
    assert_eq!(check_quota(0, 0), None);
    assert_eq!(check_quota(1, 0), Some(QuotaLevel::OverQuota));
    assert_eq!(check_quota(0, 100), None);
    assert_eq!(check_quota(74, 100), None);
    assert_eq!(check_quota(75, 100), Some(QuotaLevel::ThreeQuartersUsed));
    assert_eq!(check_quota(89, 100), Some(QuotaLevel::ThreeQuartersUsed));
    assert_eq!(check_quota(90, 100), Some(QuotaLevel::NearlyExhausted));
    assert_eq!(check_quota(99, 100), Some(QuotaLevel::NearlyExhausted));
    assert_eq!(check_quota(100, 100), Some(QuotaLevel::OverQuota));
    assert_eq!(check_quota(250, 100), Some(QuotaLevel::OverQuota));
    assert_eq!(warning_text(QuotaLevel::OverQuota), "Error: You are over your quota!");
    assert_eq!(
        warning_text(QuotaLevel::NearlyExhausted),
        "Urgent warning: You've used up over 90% of your quota!"
    );
    assert_eq!(
        warning_text(QuotaLevel::ThreeQuartersUsed),
        "Warning: You've used up over 75% of your quota!"
    );
}

#[test]
fn post_goes_public_only_after_approval() {
    let mut post = Post::new();
    post.add_text("I ate a salad for lunch today");
    assert_eq!(post.content(), "");
    post.request_review();
    assert_eq!(post.content(), "");
    post.approve();
    assert_eq!(post.content(), "I ate a salad for lunch today");
}

#[test]
fn post_approve_without_review_does_nothing() {
    let mut post = Post::new();
    post.add_text("draft words");
    post.approve();
    assert_eq!(post.content(), "");
}

#[test]
fn typestate_post_flow() {
    let mut post = handles::typestate::Post::new();
    post.add_text("I ate a salad for lunch today");
    let post = post.request_review();
    let post = post.approve();
    assert_eq!(post.content(), "I ate a salad for lunch today");
}

#[test]
fn giveaway_prefers_the_customer() {
    let store = Inventory { shirts: vec![ShirtColor::Blue, ShirtColor::Red, ShirtColor::Blue] };
    assert_eq!(store.giveaway(Some(ShirtColor::Red)), ShirtColor::Red);
    assert_eq!(store.giveaway(None), ShirtColor::Blue);
}

#[test]
fn most_stocked_ties_go_to_blue() {
    let even = Inventory { shirts: vec![ShirtColor::Red, ShirtColor::Blue] };
    assert_eq!(even.most_stocked(), ShirtColor::Blue);
    let reds = Inventory { shirts: vec![ShirtColor::Red, ShirtColor::Red, ShirtColor::Blue] };
    assert_eq!(reds.most_stocked(), ShirtColor::Red);
    let empty = Inventory { shirts: vec![] };
    assert_eq!(empty.most_stocked(), ShirtColor::Blue);
}

#[test]
fn largest_of_list() {
    let numbers = vec![34, 50, 25, 100, 65];
    assert_eq!(largest(&numbers), 100);
    let single = vec![-7];
    assert_eq!(largest(&single), -7);
}

#[test]
fn longest_picks_by_length() {
    assert_eq!(longest("long string is long", "xyz"), "long string is long");
    assert_eq!(longest("ab", "xy"), "xy");
    // Length is measured in bytes: three two-byte characters outweigh
    // four one-byte ones.
    assert_eq!(longest("\u{e9}\u{e9}\u{e9}", "abcd"), "\u{e9}\u{e9}\u{e9}");
}

#[test]
fn excerpt_level_and_part() {
    let novel = String::from("Call me Ishmael. Some years ago...");
    let excerpt = ImportantExcerpt { part: &novel[0..16] };
    assert_eq!(excerpt.level(), 3);
    assert_eq!(excerpt.announce_and_return_part("listen"), "Call me Ishmael.");
}

#[test]
fn summaries_and_notify() {
    let article = NewsArticle {
        headline: String::from("Penguins win the Stanley Cup Championship!"),
        location: String::from("Pittsburgh, PA, USA"),
        author: String::from("Iceburgh"),
        content: String::from("The Pittsburgh Penguins once again are the best team in the NHL."),
    };
    assert_eq!(
        article.summarize(),
        "Penguins win the Stanley Cup Championship!, by Iceburgh (Pittsburgh, PA, USA)"
    );

    let tweet = Tweet {
        username: String::from("horse_ebooks"),
        content: String::from("of course, as you probably already know, people"),
        reply: false,
        retweet: false,
    };
    assert_eq!(tweet.summarize(), "horse_ebooks: of course, as you probably already know, people");
    assert_eq!(
        notify(&tweet),
        "Breaking news! horse_ebooks: of course, as you probably already know, people"
    );
}

struct CountingSquare<'a> {
    drawn: &'a RefCell<u32>,
}

impl<'a> Draw for CountingSquare<'a> {
    fn draw(&self) {
        *self.drawn.borrow_mut() += 1;
    }
}

#[test]
fn screen_draws_every_component() {
    let drawn = RefCell::new(0);
    let screen = Screen {
        components: vec![
            CountingSquare { drawn: &drawn },
            CountingSquare { drawn: &drawn },
            CountingSquare { drawn: &drawn },
        ],
    };
    screen.run();
    assert_eq!(*drawn.borrow(), 3);
}

#[test]
fn breakfast_comes_with_peaches() {
    let order = Breakfast::summer("Rye");
    assert_eq!(order.toast, "Rye");
    let _side: Appetizer = Appetizer::Soup;
    eat_at_restaurant();
    handles::guests::eat_at_restaurant();
}

#[test]
fn enums_and_option_increment() {
    assert_eq!(addOne(Some(5)), Some(6));
    assert_eq!(addOne(None), None);
    let home = IpAddrRevised::V4(String::from("127.0.0.1"));
    assert!(matches!(home, IpAddrRevised::V4(a) if a == "127.0.0.1"));
    let m = Message::Write(String::from("hello"));
    m.call();
}

#[test]
fn coins_are_worth_their_face() {
    assert_eq!(value_in_cents(Coin::Penny), 1);
    assert_eq!(value_in_cents(Coin::Nickel), 5);
    assert_eq!(
        value_in_cents(Coin::Dime { big: String::from("big"), small: String::from("small") }),
        10
    );
    assert_eq!(value_in_cents(Coin::Quarter(UsState::Alabama)), 25);
    assert_eq!(value_in_cents(Coin::Quarter(UsState::Alaska)), 25);
}

#[test]
fn guesses_are_judged_exactly() {
    assert_eq!(evaluate_guess(3, 7), GuessOutcome::TooSmall);
    assert_eq!(evaluate_guess(9, 7), GuessOutcome::TooBig);
    assert_eq!(evaluate_guess(7, 7), GuessOutcome::Win);
}

#[test]
fn secrets_stay_in_range() {
    for _ in 0..100 {
        let s = draw_secret();
        assert!((1..=100).contains(&s));
    }
}

#[test]
fn ownership_helpers() {
    let s = String::from("hello");
    assert_eq!(calculate_length(&s), 5);
    // Lengths are bytes, not characters: one two-byte character counts twice.
    assert_eq!(calculate_length(&String::from("h\u{e9}llo")), 6);
    assert_eq!(first_word(&String::from("hello world")), "hello");
    assert_eq!(first_word(&String::from("hello")), "hello");
    assert_eq!(first_word(&String::from(" leading")), "");
    let user = build_user(String::from("test@test.com"), String::from("test"));
    assert!(user.active);
    assert_eq!(user.username, "test");
    assert_eq!(user.email, "test@test.com");
    assert_eq!(user.sign_in_count, 1);
}

#[test]
fn boxes_and_points() {
    let b = MyBox::new(5);
    assert_eq!(*b.inner(), 5);
    let p1 = Point { x: 5, y: 10.4 };
    let p2 = Point { x: "Hello", y: 'c' };
    let p3 = p1.mixup(p2);
    assert_eq!(*p3.x(), 5);
    assert_eq!(*p3.y(), 'c');
}
