//! The demonstration feed behind `open_with_cb`: one event per tick,
//! alternating between a user event and a numbered one.
use vstd::prelude::*;

use super::error::ForeignError;
use crate::proto::json::{dec_nat, push_dec_u64};

verus! {

/// An event of the demonstration feed.
#[derive(Debug, Clone, PartialEq)]
pub enum Event {
    Even1(String),
    User { name: String },
}

/// A user of the demonstration feed.
#[derive(Debug, Clone, PartialEq)]
pub struct User {
    pub bar: String,
}

/// Callbacks of the demonstration feed, implemented by the host.
pub trait CbListener {
    fn on_event(&self, event: Event);

    fn on_user(&self, user: User);

    fn on_oop(&self) -> Result<(), ForeignError>;
}

/// The event of tick `num`: on even ticks the user `user<num>`, on odd
/// ones the number itself, in decimal.
pub fn event_for(num: u64) -> (r: Event)
    ensures
        match r {
            Event::User { name } => num % 2 == 0 && name@ == seq!['u', 's', 'e', 'r'] + dec_nat(num as nat),
            Event::Even1(t) => num % 2 == 1 && t@ == dec_nat(num as nat),
        },
{
    if num % 2 == 0 {
        let mut name = String::new();
        proof {
            reveal_strlit("user");
        }
        name.append("user");
        push_dec_u64(num, &mut name);
        assert(name@ =~= seq!['u', 's', 'e', 'r'] + dec_nat(num as nat));
        Event::User { name }
    } else {
        let mut t = String::new();
        push_dec_u64(num, &mut t);
        assert(t@ =~= dec_nat(num as nat));
        Event::Even1(t)
    }
}

} // verus!
