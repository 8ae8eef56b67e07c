//! The look shared by every embed the bot sends: a cyan colour and a
//! footer drawn at random.
use rand::seq::SliceRandom;
use vstd::prelude::*;

verus! {

/// The red, green and blue parts of the colour of every embed.
pub const EMBED_COLOUR: [u8; 3] = [0, 255, 255];

/// The footers an embed can carry.
pub const FOOTERS: [&'static str; 3] = ["Beep Boop", "Is this thing on?", "Help im trapped in a compu-"];

/// Picks one of `options` at random with `rand::seq::SliceRandom::choose`
/// and the thread's random generator; `None` exactly for no options, else
/// one of them. Which one is left open.
#[verifier::external_body]
fn choose_one(options: &[&'static str]) -> (r: Option<&'static str>)
    ensures
        r is None <==> options@.len() == 0,
        r matches Some(s) ==> options@.contains(s),
{
    options.choose(&mut rand::thread_rng()).copied()
}

/// The footer of an embed: one of `FOOTERS`, drawn at random.
pub fn footer_text() -> (s: &'static str)
    ensures
        exists|i: int| 0 <= i < FOOTERS@.len() && s == FOOTERS@[i],
{
    let options: &[&'static str] = &FOOTERS;
    match choose_one(options) {
        Some(s) => s,
        None => "",
    }
}

} // verus!
