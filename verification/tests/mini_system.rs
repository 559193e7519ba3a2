use mini_system::config::load_config;
use mini_system::config::ConfigError;
use mini_system::container::Container;
use mini_system::coordinator::run;
use mini_system::counter::SharedCounter;
use mini_system::message::Message;
use mini_system::numeral::decimal_string;
use mini_system::record::Person;
use mini_system::util::longest;
use mini_system::util::poorly_formatted;

#[test]
fn new_record_has_no_email() {
    let p = Person::new(String::from("Alice"), 25);
    assert_eq!(p.email(), &None);
}

#[test]
fn can_vote_at_eighteen_and_above() {
    assert!(Person::new(String::from("Alice"), 25).can_vote());
    assert!(Person::new(String::from("Bob"), 18).can_vote());
    assert!(!Person::new(String::from("Carol"), 17).can_vote());
    assert!(!Person::new(String::from("Dan"), 0).can_vote());
}

#[test]
fn set_email_stores_the_text() {
    let mut p = Person::new(String::from("Alice"), 25);
    p.set_email(String::from("alice@example.com"));
    assert_eq!(p.email(), &Some(String::from("alice@example.com")));
    p.set_email(String::from(""));
    assert_eq!(p.email(), &Some(String::from("")));
}

#[test]
fn container_keeps_insertion_order() {
    let mut c: Container<i32> = Container::new();
    assert_eq!(c.len(), 0);
    c.add(3);
    c.add(1);
    c.add(2);
    assert_eq!(c.len(), 3);
    assert_eq!(c.items().as_slice(), &[3, 1, 2]);
}

#[test]
fn container_length_matches_add_count() {
    let mut c: Container<u64> = Container::new();
    for i in 0..100u64 {
        c.add(i * i);
    }
    assert_eq!(c.len(), 100);
    assert_eq!(c.items()[99], 99 * 99);
}

#[test]
fn container_of_strings() {
    let mut c: Container<String> = Container::new();
    c.add(String::from("a"));
    c.add(String::from("b"));
    assert_eq!(c.items().as_slice(), &[String::from("a"), String::from("b")]);
}

#[test]
fn process_text_message() {
    let m = Message::Text(String::from("Hello, Rust!"));
    assert_eq!(m.process(), "Text: Hello, Rust!");
}

#[test]
fn process_image_message() {
    let m = Message::Image { url: String::from("pic.jpg"), width: 640, height: 480 };
    assert_eq!(m.process(), "Image: pic.jpg (640x480)");
}

#[test]
fn process_video_message() {
    let m = Message::Video(String::from("clip.mp4"), 95);
    assert_eq!(m.process(), "Video: clip.mp4 (95 seconds)");
}

#[test]
fn image_description_names_url_and_dimensions() {
    let m = Message::Image { url: String::from("a.png"), width: 10, height: 20 };
    let d = m.process();
    assert!(d.contains("a.png"));
    assert!(d.contains("10"));
    assert!(d.contains("20"));
}

#[test]
fn decimal_rendering_is_exact() {
    assert_eq!(decimal_string(0), "0");
    assert_eq!(decimal_string(7), "7");
    assert_eq!(decimal_string(10), "10");
    assert_eq!(decimal_string(95), "95");
    assert_eq!(decimal_string(1000), "1000");
    assert_eq!(decimal_string(u32::MAX), "4294967295");
}

#[test]
fn counter_counts_every_increment() {
    for n in [0usize, 1, 10, 1000] {
        let mut c = SharedCounter::new();
        for _ in 0..n {
            c.increment();
        }
        assert_eq!(c.read(), n as u64);
    }
}

#[test]
fn load_config_accepts_a_well_formed_document() {
    let r = load_config(Some("title = \"example\"\n[owner]\nname = \"Lisa\"\n"));
    assert!(r.is_ok());
}

#[test]
fn load_config_reports_missing_text() {
    let r = load_config(None);
    assert!(matches!(r, Err(ConfigError::Missing)));
}

#[test]
fn load_config_rejects_a_malformed_document() {
    let r = load_config(Some("this is ] not a document ["));
    assert!(matches!(r, Err(ConfigError::Invalid)));
}

#[test]
fn run_reports_counter_one_after_synchronizing() {
    let r = run(Some("k = 1\n"));
    assert_eq!(r.counter, 1);
    assert!(r.config.is_ok());
    assert_eq!(r.dispatched, "Text: Hello, Rust!");
    assert!(r.person.can_vote());
    assert_eq!(r.person.email(), &Some(String::from("alice@example.com")));
}

#[test]
fn run_survives_a_missing_config() {
    let r = run(None);
    assert!(matches!(r.config, Err(ConfigError::Missing)));
    assert_eq!(r.counter, 1);
    assert_eq!(r.dispatched, "Text: Hello, Rust!");
}

#[test]
fn run_survives_a_malformed_config() {
    let r = run(Some("= broken ="));
    assert!(matches!(r.config, Err(ConfigError::Invalid)));
    assert_eq!(r.counter, 1);
}

#[test]
fn longest_picks_the_longer_argument() {
    assert_eq!(longest("hello", "hi"), "hello");
    assert_eq!(longest("a", "bcd"), "bcd");
    assert_eq!(longest("tie", "tee"), "tee");
    assert_eq!(longest("", ""), "");
}

#[test]
fn poorly_formatted_adds() {
    assert_eq!(poorly_formatted(2, 3), 5);
    assert_eq!(poorly_formatted(-4, 4), 0);
}
