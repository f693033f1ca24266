//! Desktop notifications, as AppleScript for `osascript` to run.

use vstd::prelude::*;
use vstd::string::StringExecFns;
use crate::text::push_char;

verus! {

/// `text` made safe for the inside of a double-quoted AppleScript string:
/// every `"` gets a backslash in front, every other character stays.
pub open spec fn escaped(text: Seq<char>) -> Seq<char>
    decreases text.len(),
{
    if text.len() == 0 {
        Seq::empty()
    } else if text.last() == '"' {
        escaped(text.drop_last()).push('\\').push('"')
    } else {
        escaped(text.drop_last()).push(text.last())
    }
}

/// The script that shows `body` as a notification under `title` and
/// `subtitle`.
pub open spec fn notification_script_of(
    title: Seq<char>,
    subtitle: Seq<char>,
    body: Seq<char>,
) -> Seq<char> {
    "display notification \""@ + escaped(body) + "\" with title \""@ + escaped(title)
        + "\" subtitle \""@ + escaped(subtitle) + "\""@
}

/// Escapes `text` for use inside a double-quoted AppleScript string.
pub fn escape_osascript_text(text: &str) -> (safe: String)
    ensures
        safe@ == escaped(text@),
{
    let mut safe = String::new();
    for c in it: text.chars()
        invariant
            it.seq() == text@,
            safe@ == escaped(text@.take(it.index())),
    {
        proof {
            assert(text@.take(it.index() + 1).drop_last() =~= text@.take(it.index()));
        }
        if c == '"' {
            push_char(&mut safe, '\\');
        }
        push_char(&mut safe, c);
    }
    proof {
        assert(text@.take(text@.len() as int) =~= text@);
    }
    safe
}

/// The script that shows `body` as a notification under `title` and
/// `subtitle`.
pub fn notification_script(title: &str, subtitle: &str, body: &str) -> (script: String)
    ensures
        script@ == notification_script_of(title@, subtitle@, body@),
{
    let title = escape_osascript_text(title);
    let subtitle = escape_osascript_text(subtitle);
    let body = escape_osascript_text(body);

    let mut script = String::from_str("display notification \"");
    script.append(body.as_str());
    script.append("\" with title \"");
    script.append(title.as_str());
    script.append("\" subtitle \"");
    script.append(subtitle.as_str());
    script.append("\"");
    script
}

/// Composes the notifications of the monitor. Each method returns the
/// script to hand to `osascript -e`.
#[derive(Clone, Copy, Debug)]
pub struct Notifier {}

impl Notifier {
    pub fn new() -> Self {
        Notifier {  }
    }

    /// An informational notification.
    pub fn info(&self, message: &str) -> (script: String)
        ensures
            script@ == notification_script_of("MacResourceMonitor"@, "Info"@, message@),
    {
        notification_script("MacResourceMonitor", "Info", message)
    }

    /// A warning, as raised for an alert.
    pub fn warning(&self, message: &str) -> (script: String)
        ensures
            script@ == notification_script_of("MacResourceMonitor"@, "Warning"@, message@),
    {
        notification_script("MacResourceMonitor", "Warning", message)
    }

    /// A notification of a failure of the monitor itself.
    pub fn error(&self, message: &str) -> (script: String)
        ensures
            script@ == notification_script_of("MacResourceMonitor"@, "Error"@, message@),
    {
        notification_script("MacResourceMonitor", "Error", message)
    }
}

} // verus!
