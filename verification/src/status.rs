//! The bot's status, as the status page reports it.

use vstd::prelude::*;

verus! {

/// The shared status of the bot: its name, its picture and whether it is online.
#[derive(Debug, PartialEq, Eq)]
pub struct StatusState {
    name: String,
    pfp: String,
    online: bool,
}

/// The status over mathematical values.
pub struct StatusView {
    pub name: Seq<char>,
    pub pfp: Seq<char>,
    pub online: bool,
}

impl View for StatusState {
    type V = StatusView;

    closed spec fn view(&self) -> StatusView {
        StatusView { name: self.name@, pfp: self.pfp@, online: self.online }
    }
}

/// What the status page answers with.
#[derive(Debug, PartialEq, Eq)]
pub struct BotStatus {
    pub name: String,
    pub pfp: String,
    pub version: String,
    pub uptime_seconds: u64,
    pub online: bool,
}

impl StatusState {
    /// The status before the bot is connected: named `RustBot`, no picture, offline.
    pub fn new() -> (res: StatusState)
        ensures
            res@ == (StatusView { name: "RustBot"@, pfp: Seq::empty(), online: false }),
    {
        StatusState { name: String::from_str("RustBot"), pfp: String::new(), online: false }
    }

    /// Records that the bot is connected, with its name and picture.
    pub fn set_ready(&mut self, name: String, pfp: String)
        ensures
            final(self)@ == (StatusView { name: name@, pfp: pfp@, online: true }),
    {
        self.name = name;
        self.pfp = pfp;
        self.online = true;
    }

    /// The status page's answer: the recorded status, with the bot's version
    /// and how long it has been up.
    pub fn snapshot(&self, version: String, uptime_seconds: u64) -> (res: BotStatus)
        ensures
            res.name@ == self@.name,
            res.pfp@ == self@.pfp,
            res.online == self@.online,
            res.version@ == version@,
            res.uptime_seconds == uptime_seconds,
    {
        BotStatus {
            name: self.name.clone(),
            pfp: self.pfp.clone(),
            version,
            uptime_seconds,
            online: self.online,
        }
    }
}

} // verus!
