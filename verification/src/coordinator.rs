//! The entry flow: build a record and give it an email, dispatch a text
//! message, load a configuration if one is available, then run the single
//! increment of the shared counter and read the value back only after that
//! increment is complete. A configuration failure is reported in the
//! result, never allowed to stop the counter step.

use vstd::prelude::*;
use vstd::string::StringExecFns;
use crate::record::Person;
use crate::record::PersonView;
use crate::message::Message;
use crate::config::Config;
use crate::config::ConfigError;
use crate::config::load_config;
use crate::config::toml_parses;
use crate::counter::SharedCounter;

verus! {

/// Performs the background task's work: exactly one increment of a fresh
/// counter, completed before the counter is handed back, so a later read
/// cannot observe the value from before the increment.
fn run_increment_task(counter: SharedCounter) -> (r: SharedCounter)
    requires
        counter@ == 0,
    ensures
        r@ == 1,
{
    let mut c = counter;
    c.increment();
    c
}

/// Everything the entry flow reports: the record it built, the description
/// the dispatcher emitted, the configuration outcome, and the counter value
/// read after the increment ran.
pub struct RunReport {
    pub person: Person,
    pub dispatched: String,
    pub config: Result<Config, ConfigError>,
    pub counter: u64,
}

/// Runs the whole flow on the given configuration text. The counter is
/// read only after its one increment has completed, so the reported value
/// is always exactly one; the configuration outcome is carried in the
/// report whatever it was.
pub fn run(config_text: Option<&str>) -> (r: RunReport)
    ensures
        r.counter == 1,
        r.person@ == (PersonView {
            name: "Alice"@,
            age: 25,
            email: Some("alice@example.com"@),
        }),
        r.dispatched@ == "Text: "@ + "Hello, Rust!"@,
        r.config is Ok <==> (config_text matches Some(s) && toml_parses(s@)),
        config_text is None ==> (r.config matches Err(e) && e == ConfigError::Missing),
        (config_text matches Some(s) && !toml_parses(s@)) ==> (r.config matches Err(e) && e
            == ConfigError::Invalid),
{
    let mut person = Person::new(String::from_str("Alice"), 25);
    person.set_email(String::from_str("alice@example.com"));

    let msg = Message::Text(String::from_str("Hello, Rust!"));
    let dispatched = msg.process();

    let config = load_config(config_text);

    let counter = SharedCounter::new();
    let counter = run_increment_task(counter);
    let value = counter.read();

    RunReport { person, dispatched, config, counter: value }
}

} // verus!
