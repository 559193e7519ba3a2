//! A closed message model: exactly three payload shapes, and a dispatcher
//! that is total over them and produces one description per message.

use vstd::prelude::*;
use vstd::string::StringExecFns;
use crate::numeral::dec_spec;
use crate::numeral::decimal_string;

verus! {

/// A message: exactly one of three shapes, fully populated at construction
/// and immutable afterwards.
#[derive(Debug)]
pub enum Message {
    /// Plain text content.
    Text(String),
    /// An image with its location and dimensions.
    Image { url: String, width: u32, height: u32 },
    /// A video with its location and its duration in seconds.
    Video(String, u32),
}

/// The description the dispatcher owes for a message: one line naming the
/// shape and its fields, with numbers rendered in decimal.
pub open spec fn describe_spec(m: &Message) -> Seq<char> {
    match m {
        Message::Text(content) => "Text: "@ + content@,
        Message::Image { url, width, height } => "Image: "@ + url@ + " ("@ + dec_spec(
            *width as nat,
        ) + "x"@ + dec_spec(*height as nat) + ")"@,
        Message::Video(url, duration) => "Video: "@ + url@ + " ("@ + dec_spec(
            *duration as nat,
        ) + " seconds)"@,
    }
}

impl Message {
    /// Dispatches the message: a total match over every shape, returning
    /// exactly one description and never a fallback.
    pub fn process(&self) -> (r: String)
        ensures
            r@ == describe_spec(self),
    {
        match self {
            Message::Text(content) => {
                let mut s = String::from_str("Text: ");
                s.append(content.as_str());
                proof {
                    assert(s@ =~= describe_spec(self));
                }
                s
            },
            Message::Image { url, width, height } => {
                let mut s = String::from_str("Image: ");
                s.append(url.as_str());
                s.append(" (");
                let w = decimal_string(*width);
                s.append(w.as_str());
                s.append("x");
                let h = decimal_string(*height);
                s.append(h.as_str());
                s.append(")");
                proof {
                    assert(s@ =~= describe_spec(self));
                }
                s
            },
            Message::Video(url, duration) => {
                let mut s = String::from_str("Video: ");
                s.append(url.as_str());
                s.append(" (");
                let d = decimal_string(*duration);
                s.append(d.as_str());
                s.append(" seconds)");
                proof {
                    assert(s@ =~= describe_spec(self));
                }
                s
            },
        }
    }
}

} // verus!
