use rust_book::aggregator::{read_more, returns_summarizable, NewsArticle, Summary, Tweet};
use rust_book::basics::{
    add_one, build_user, do_roll, first_word, largest, longest, plus_one, value_in_cents, Coin,
    RollAction, UsState,
};
use rust_book::outline::outline;
use rust_book::points::{Counter, Meters, Millimeters, Point, Producer};
use rust_book::blog;
use rust_book::guess::{Game, Guess, Verdict};
use rust_book::http::{response, route, same_text};
use rust_book::inventory::{Inventory, ShirtColor};
use rust_book::limits::{quota_message, LimitTracker, Messenger};
use rust_book::restaurant::{Appetizer, Breakfast};
use rust_book::shapes::{area1, area2, area3, Rectangle};
use rust_book::workflow::{self, State};
use std::cell::RefCell;

#[test]
fn exploration() {
    let result = 2 + 2;
    assert_eq!(result, 4);
}

#[test]
fn larger_can_hold_smaller() {
    let larger = Rectangle {
        width: 8,
        height: 7,
    };
    let smaller = Rectangle {
        width: 5,
        height: 1,
    };

    assert!(larger.can_hold(&smaller));
}

#[test]
fn smaller_cannot_hold_larger_or_equal() {
    let a = Rectangle { width: 8, height: 7 };
    let b = Rectangle { width: 5, height: 1 };
    assert!(!b.can_hold(&a));
    assert!(!a.can_hold(&a));
}

#[test]
fn areas_agree() {
    let rect = Rectangle { width: 30, height: 50 };
    assert_eq!(rect.area(), 1500);
    assert_eq!(area1(30, 50), 1500);
    assert_eq!(area2((30, 50)), 1500);
    assert_eq!(area3(&rect), 1500);
    assert_eq!(Rectangle::square(15).area(), 225);
}

struct MockMessenger {
    sent_messages: RefCell<Vec<String>>,
}

impl MockMessenger {
    fn new() -> MockMessenger {
        MockMessenger {
            sent_messages: RefCell::new(vec![]),
        }
    }
}

impl Messenger for MockMessenger {
    fn send(&self, message: &str) {
        self.sent_messages.borrow_mut().push(String::from(message));
    }
}

#[test]
fn it_sends_an_over_75_percent_warning_message() {
    let mock_messenger = MockMessenger::new();
    let mut limit_tracker = LimitTracker::new(&mock_messenger, 100);

    limit_tracker.set_value(80);

    assert_eq!(mock_messenger.sent_messages.borrow().len(), 1);
}

#[test]
fn quota_thresholds() {
    assert_eq!(quota_message(74, 100), None);
    assert_eq!(quota_message(75, 100), Some("Warning: You've used up over 75% of your quota!"));
    assert_eq!(quota_message(90, 100), Some("Urgent warning: You've used up over 90% of your quota!"));
    assert_eq!(quota_message(100, 100), Some("Error: You are over your quota!"));
    assert_eq!(quota_message(0, 0), None);
    assert_eq!(quota_message(1, 0), Some("Error: You are over your quota!"));
    assert_eq!(quota_message(usize::MAX, usize::MAX), Some("Error: You are over your quota!"));
}

#[test]
fn guess_keeps_its_value() {
    assert_eq!(Guess::new(1).value(), 1);
    assert_eq!(Guess::new(100).value(), 100);
}

#[test]
fn game_judges_guesses() {
    let game = Game::with_secret(42);
    assert_eq!(game.judge(41), Verdict::TooSmall);
    assert_eq!(game.judge(43), Verdict::TooBig);
    assert_eq!(game.judge(42), Verdict::Win);
    let random = Game::new();
    let wins = (1..=100).filter(|&g| random.judge(g) == Verdict::Win).count();
    assert_eq!(wins, 1);
}

#[test]
fn typed_post_publishes_its_text() {
    let mut post = blog::Post::new();
    post.add_text("I ate a salad for lunch today");
    let post = post.request_review().approve();
    assert_eq!(post.content(), "I ate a salad for lunch today");
}

#[test]
fn workflow_post_moves_through_stages() {
    let mut post = workflow::Post::new();
    post.add_text("I ate a salad");
    assert_eq!(post.state(), State::Draft);
    post.approve();
    assert_eq!(post.state(), State::Draft);
    post.request_review();
    assert_eq!(post.state(), State::PendingReview);
    post.approve();
    assert_eq!(post.state(), State::Scheduled);
    post.approve();
    assert_eq!(post.state(), State::Published);
    assert_eq!(post.content(), "I ate a salad");
    assert_eq!(State::Scheduled.reject(), State::Draft);
}

#[test]
fn giveaway_prefers_the_request() {
    let store = Inventory {
        shirts: vec![ShirtColor::Blue, ShirtColor::Red, ShirtColor::Blue],
    };
    assert_eq!(store.giveaway(Some(ShirtColor::Red)), ShirtColor::Red);
    assert_eq!(store.giveaway(None), ShirtColor::Blue);
    let reds = Inventory { shirts: vec![ShirtColor::Red, ShirtColor::Red, ShirtColor::Blue] };
    assert_eq!(reds.most_stocked(), ShirtColor::Red);
    let tie = Inventory { shirts: vec![ShirtColor::Red, ShirtColor::Blue] };
    assert_eq!(tie.most_stocked(), ShirtColor::Blue);
    let empty = Inventory { shirts: vec![] };
    assert_eq!(empty.most_stocked(), ShirtColor::Blue);
}

#[test]
fn small_helpers() {
    assert_eq!(largest(&[34, 50, 25, 100, 65]), 100);
    assert_eq!(largest(&[-3]), -3);
    assert_eq!(longest("abcd", "xyz"), "abcd");
    assert_eq!(longest("ab", "xy"), "xy");
    assert_eq!(first_word("hello world"), "hello");
    assert_eq!(first_word("hello"), "hello");
    assert_eq!(first_word(" lead"), "");
    assert_eq!(plus_one(Some(5)), Some(6));
    assert_eq!(plus_one(None), None);
    assert_eq!(add_one(5), 6);
    assert_eq!(value_in_cents(Coin::Penny), 1);
    assert_eq!(value_in_cents(Coin::Nickel), 5);
    assert_eq!(value_in_cents(Coin::Dime), 10);
    assert_eq!(value_in_cents(Coin::Quarter(UsState::Alaska)), 25);
}

#[test]
fn summaries() {
    let tweet = returns_summarizable();
    assert_eq!(tweet.summarize_author(), "@horse_ebooks");
    assert_eq!(tweet.summarize(), "(Read more from @horse_ebooks...)");
    let article = NewsArticle {
        headline: String::from("Penguins win the Stanley Cup Championship!"),
        location: String::from("Pittsburgh, PA, USA"),
        author: String::from("Iceburgh"),
        content: String::from("The Pittsburgh Penguins once again are the best hockey team in the NHL."),
    };
    assert_eq!(
        article.summarize(),
        "Penguins win the Stanley Cup Championship!, by Iceburgh (Pittsburgh, PA, USA)"
    );
    assert_eq!(article.summarize_author(), "Iceburgh");
    assert_eq!(read_more("x"), "(Read more from x...)");
    let other = Tweet { username: String::from("a"), content: String::new(), reply: true, retweet: false };
    assert_eq!(other.handle(), "@a");
}

#[test]
fn routes_and_responses() {
    let home = route("GET / HTTP/1.1");
    assert_eq!(home.status_line, "HTTP/1.1 200 OK");
    assert_eq!(home.filename, "hello_http/hello.html");
    assert_eq!(home.delay_secs, 0);
    assert_eq!(route("GET /sleep HTTP/1.1").delay_secs, 5);
    let missing = route("GET /other HTTP/1.1");
    assert_eq!(missing.status_line, "HTTP/1.1 404 NOT FOUND");
    assert_eq!(missing.filename, "hello_http/404.html");
    assert_eq!(response("HTTP/1.1 200 OK", "hi"), "HTTP/1.1 200 OK\r\nContent-Length: 2\r\n\r\nhi");
    let body = "x".repeat(1234);
    assert_eq!(
        response("S", &body),
        format!("S\r\nContent-Length: 1234\r\n\r\n{body}")
    );
    assert_eq!(response("S", ""), "S\r\nContent-Length: 0\r\n\r\n");
    assert!(same_text("ab", "ab"));
    assert!(!same_text("ab", "abc"));
}

#[test]
fn summer_breakfast_keeps_toast() {
    let mut meal = Breakfast::summer("Rye");
    assert_eq!(meal.toast, "Rye");
    meal.toast = String::from("Wheat");
    assert_eq!(meal.toast, "Wheat");
    assert_ne!(Appetizer::Soup, Appetizer::Salad);
}

#[test]
fn points_add_by_coordinates() {
    assert_eq!(Point { x: 1, y: 0 } + Point { x: 2, y: 3 }, Point { x: 3, y: 3 });
    assert_eq!((Millimeters(5) + Meters(2)).0, 2005);
}

#[test]
fn outline_frames_text() {
    let lines = outline("(1, 3)");
    assert_eq!(
        lines,
        vec!["**********", "*        *", "* (1, 3) *", "*        *", "**********"]
    );
    assert_eq!(outline(""), vec!["****", "*  *", "*  *", "*  *", "****"]);
}

#[test]
fn dice_and_users() {
    assert_eq!(do_roll(3), RollAction::AddFancyHat);
    assert_eq!(do_roll(7), RollAction::RemoveFancyHat);
    assert_eq!(do_roll(9), RollAction::MovePlayer(9));
    let user = build_user(String::from("a@example.com"), String::from("someone"));
    assert_eq!(user.email, "a@example.com");
    assert_eq!(user.username, "someone");
    assert_eq!(user.sign_in_count, 1);
}

#[test]
fn counter_produces_nothing() {
    let mut counter = Counter;
    assert_eq!(counter.next(), None);
    assert_eq!(counter.next(), None);
}
