use snake_game::anonymous_function::Cacher;
use snake_game::draw::{to_coord_u32, BLOCK_SIZE};
use snake_game::generics::{Point, _generics};
use snake_game::lifetimes::{ImportantExcerpt, _elision, _longest};
use snake_game::oo::bounded;
use snake_game::oo::{Draw, Screen};
use snake_game::process_control::ifing;
use snake_game::smart_pointer::{List, MyBox};
use snake_game::traits::{AssociatedTypes, Human, News, Summary, Tweet, _notifily};
use std::cell::RefCell;
use std::rc::Rc;

/// A component that writes its name into a shared log when drawn.
struct Logged {
    name: &'static str,
    log: Rc<RefCell<Vec<&'static str>>>,
}

impl Draw for Logged {
    fn draw(&self) {
        self.log.borrow_mut().push(self.name);
    }
}

#[test]
fn to_coord_u32_multiplies_by_the_block_size() {
    assert_eq!(BLOCK_SIZE, 25);
    assert_eq!(to_coord_u32(0), 0);
    assert_eq!(to_coord_u32(1), 25);
    assert_eq!(to_coord_u32(20), 500);
}

#[test]
fn to_coord_u32_stays_within_u32() {
    assert_eq!(to_coord_u32(-1), 0);
    assert_eq!(to_coord_u32(i32::MIN), 0);
    assert_eq!(to_coord_u32(171_798_691), 4_294_967_275);
    assert_eq!(to_coord_u32(171_798_692), u32::MAX);
    assert_eq!(to_coord_u32(i32::MAX), u32::MAX);
}

#[test]
fn to_coord_u32_agrees_with_float_arithmetic() {
    for x in [-5, 0, 3, 19, 1_000_000, 171_798_691, 171_798_692, i32::MAX] {
        assert_eq!(to_coord_u32(x), ((x as f64) * 25.0) as u32);
    }
}

#[test]
fn screen_draws_each_component_in_order() {
    let log = Rc::new(RefCell::new(Vec::new()));
    let screen = Screen {
        components: vec![
            Box::new(Logged { name: "button", log: log.clone() }),
            Box::new(Logged { name: "box", log: log.clone() }),
        ],
    };
    screen.run();
    assert_eq!(*log.borrow(), vec!["button", "box"]);
    screen.run();
    assert_eq!(log.borrow().len(), 4);
}

#[test]
fn bounded_screen_draws_each_component_in_order() {
    let log = Rc::new(RefCell::new(Vec::new()));
    let screen = bounded::Screen {
        components: vec![
            Logged { name: "a", log: log.clone() },
            Logged { name: "b", log: log.clone() },
            Logged { name: "c", log: log.clone() },
        ],
    };
    screen.run();
    assert_eq!(*log.borrow(), vec!["a", "b", "c"]);
}

#[test]
fn empty_screen_draws_nothing() {
    Screen { components: Vec::new() }.run();
    bounded::Screen::<Logged> { components: Vec::new() }.run();
}

#[test]
fn cacher_runs_the_calculation_once() {
    let calls = RefCell::new(0);
    let mut cacher = Cacher::new(|x| {
        *calls.borrow_mut() += 1;
        x + 1
    });
    assert_eq!(cacher.value, None);
    assert_eq!(cacher.value(1), 2);
    assert_eq!(cacher.value(5), 2);
    assert_eq!(cacher.value, Some(2));
    assert_eq!(*calls.borrow(), 1);
}

#[test]
fn generics_first_item() {
    assert_eq!(*_generics(&[7, 8, 9]), 7);
    assert_eq!(*_generics(&["only"]), "only");
}

#[test]
fn point_mixup_takes_both_first_coordinates() {
    let p1 = Point { x: 5, y: 10 };
    let p2 = Point { x: "Hello", y: 2 };
    assert_eq!(*p1._x(), 5);
    assert_eq!(p1._dis(), 5);
    let mixed = p1._mixup(p2);
    assert_eq!(mixed.x, 5);
    assert_eq!(mixed.y, "Hello");
}

#[test]
fn longest_prefers_the_second_on_a_tie() {
    assert_eq!(_longest("abcd", "xyz"), "abcd");
    assert_eq!(_longest("ab", "xyz"), "xyz");
    let (a, b) = (String::from("same"), String::from("size"));
    assert!(std::ptr::eq(_longest(&a, &b), b.as_str()));
    assert_eq!(_longest("é", "zz"), "zz");
    assert_eq!(_longest("éé", "zzz"), "éé");
}

#[test]
fn excerpt_and_elision_hand_back_their_text() {
    let excerpt = ImportantExcerpt { part: "Call me Ishmael" };
    assert_eq!(excerpt._level("anything"), "Call me Ishmael");
    assert_eq!(_elision("whole"), "whole");
}

#[test]
fn my_box_holds_its_value() {
    let b = MyBox::new(String::from("hello"));
    assert_eq!(*b, "hello");
    assert_eq!(b.len(), 5);
    assert_eq!(b.0, "hello");
    assert_eq!(*MyBox::new(1), 1);
}

#[test]
fn ifing_picks_by_size() {
    assert_eq!(ifing(0), 5);
    assert_eq!(ifing(9), 5);
    assert_eq!(ifing(10), 12);
    assert_eq!(ifing(19), 12);
    assert_eq!(ifing(20), 6);
    assert_eq!(ifing(255), 6);
}

#[test]
fn list_tail_is_the_rest() {
    let list = List::Cons(5, Box::new(List::Cons(10, Box::new(List::Nil))));
    let rest = list.tail().unwrap();
    assert!(matches!(**rest, List::Cons(10, _)));
    let last = rest.tail().unwrap();
    assert!(matches!(**last, List::Nil));
    assert!(last.tail().is_none());
}

#[test]
fn news_and_tweets_summarize() {
    let news = News { content: String::from("content") };
    let tweet = Tweet { retweet: String::from("again") };
    assert_eq!(news.summarize(), "content");
    assert_eq!(news.summary(), "重载");
    assert_eq!(tweet.summarize(), "again");
    assert_eq!(tweet.summary(), "again");
    assert_eq!(_notifily(tweet).summary(), "again");
}

#[test]
fn string_hands_out_its_length() {
    let mut s = String::from("xxx");
    assert_eq!(AssociatedTypes::next(&mut s), Some(3));
    assert_eq!(AssociatedTypes::next(&mut s), Some(3));
    assert_eq!(s, "xxx");
    let mut wide = String::from("é");
    assert_eq!(AssociatedTypes::next(&mut wide), Some(2));
}

#[test]
fn human_is_called_human() {
    assert_eq!(Human::name(), "human");
}
