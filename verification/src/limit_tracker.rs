use vstd::prelude::*;

verus! {

/// Where messages about a quota go.
pub trait Messenger {
    fn send(&self, msg: &str);
}

/// How much of a quota is used.
#[derive(Clone, Copy, Debug, PartialEq, Eq, Structural)]
pub enum QuotaLevel {
    /// Less than three quarters.
    Fine,
    /// Three quarters or more.
    Warning,
    /// Nine tenths or more.
    Critical,
    /// All of it, or more.
    Over,
}

/// The level at which `value` stands in a quota of `max`. Of a quota of
/// nothing, any use is too much and no use is fine.
pub open spec fn quota_level(value: int, max: int) -> QuotaLevel {
    if max == 0 {
        if value > 0 {
            QuotaLevel::Over
        } else {
            QuotaLevel::Fine
        }
    } else if value >= max {
        QuotaLevel::Over
    } else if 10 * value >= 9 * max {
        QuotaLevel::Critical
    } else if 4 * value >= 3 * max {
        QuotaLevel::Warning
    } else {
        QuotaLevel::Fine
    }
}

/// What is said at a level, if anything.
pub open spec fn level_message(level: QuotaLevel) -> Option<Seq<char>> {
    match level {
        QuotaLevel::Over => Some("Error : you are over the quota!"@),
        QuotaLevel::Critical => Some("Critical : you have used over 90% of your quota!"@),
        QuotaLevel::Warning => Some("Warning : you are using over 75% of your quota."@),
        QuotaLevel::Fine => None,
    }
}

pub fn capacity_level(value: usize, max: usize) -> (level: QuotaLevel)
    ensures
        level == quota_level(value as int, max as int),
{
    let used: u128 = value as u128;
    let all: u128 = max as u128;
    if max == 0 {
        if value > 0 {
            QuotaLevel::Over
        } else {
            QuotaLevel::Fine
        }
    } else if value >= max {
        QuotaLevel::Over
    } else if 10 * used >= 9 * all {
        QuotaLevel::Critical
    } else if 4 * used >= 3 * all {
        QuotaLevel::Warning
    } else {
        QuotaLevel::Fine
    }
}

/// The message that is due when `value` of a quota of `max` is used.
pub fn quota_message(value: usize, max: usize) -> (msg: Option<&'static str>)
    ensures
        match msg {
            Some(text) => level_message(quota_level(value as int, max as int)) == Some(text@),
            None => level_message(quota_level(value as int, max as int)) is None,
        },
{
    match capacity_level(value, max) {
        QuotaLevel::Over => Some("Error : you are over the quota!"),
        QuotaLevel::Critical => Some("Critical : you have used over 90% of your quota!"),
        QuotaLevel::Warning => Some("Warning : you are using over 75% of your quota."),
        QuotaLevel::Fine => None,
    }
}

/// Keeps a value against a quota, and has a messenger told when the value
/// comes close to the quota or passes it.
pub struct LimitTracker<'a, T: Messenger> {
    messenger: &'a T,
    value: usize,
    max: usize,
}

impl<'a, T: Messenger> LimitTracker<'a, T> {
    pub closed spec fn used(&self) -> usize {
        self.value
    }

    pub closed spec fn quota(&self) -> usize {
        self.max
    }

    pub fn new(messenger: &'a T, max: usize) -> (tracker: LimitTracker<'a, T>)
        ensures
            tracker.used() == 0,
            tracker.quota() == max,
    {
        LimitTracker { messenger, value: 0, max }
    }

    /// Takes the new value, and sends the message that is due at its level,
    /// if one is.
    pub fn set_value(&mut self, new_value: usize)
        ensures
            final(self).used() == new_value,
            final(self).quota() == old(self).quota(),
    {
        self.value = new_value;
        match quota_message(self.value, self.max) {
            Some(text) => self.messenger.send(text),
            None => {},
        }
    }

    pub fn value(&self) -> (value: usize)
        ensures
            value == self.used(),
    {
        self.value
    }

    pub fn max(&self) -> (max: usize)
        ensures
            max == self.quota(),
    {
        self.max
    }
}

} // verus!
