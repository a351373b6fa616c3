//! The board abstraction: an ordered bank of relays, and the resolver that
//! maps a board model name to its fixed relay pin list.

use crate::board_pins::PinBasedBoard;
use crate::gpio::Gpio;
use crate::gpio::GpioError;
use crate::gpio::GpioPin;
use vstd::prelude::*;

verus! {

/// An ordered bank of relays. `relay_pins()` gives the pin number behind
/// each relay; `relay_history(i)` gives the levels relay `i` has been driven
/// to.
pub trait Board: Sized {
    type Relay: BoardRelay;

    /// The pin numbers of this board's relays, in order.
    spec fn relay_pins(&self) -> Seq<u8>;

    /// The levels relay `i` has been driven to, in order.
    spec fn relay_history(&self, i: int) -> Seq<bool>;

    fn relays(&self) -> (n: usize)
        ensures
            n == self.relay_pins().len(),
    ;

    fn press_relay(&mut self, index: usize)
        requires
            index < old(self).relay_pins().len(),
        ensures
            final(self).relay_pins() == old(self).relay_pins(),
            final(self).relay_history(index as int) == old(self).relay_history(
                index as int,
            ).push(true),
            forall|j: int|
                0 <= j < old(self).relay_pins().len() && j != index ==> final(self).relay_history(j)
                    == old(self).relay_history(j),
    ;

    fn release_relay(&mut self, index: usize)
        requires
            index < old(self).relay_pins().len(),
        ensures
            final(self).relay_pins() == old(self).relay_pins(),
            final(self).relay_history(index as int) == old(self).relay_history(
                index as int,
            ).push(false),
            forall|j: int|
                0 <= j < old(self).relay_pins().len() && j != index ==> final(self).relay_history(j)
                    == old(self).relay_history(j),
    ;
}

/// One relay: a timed press drives it high, the matching release drives it
/// low again.
pub trait BoardRelay: Sized {
    /// The pin number that drives this relay.
    spec fn relay_pin(&self) -> u8;

    /// The levels this relay has been driven to, in order.
    spec fn relay_history(&self) -> Seq<bool>;

    fn press(&mut self)
        ensures
            final(self).relay_pin() == old(self).relay_pin(),
            final(self).relay_history() == old(self).relay_history().push(true),
    ;

    fn release(&mut self)
        ensures
            final(self).relay_pin() == old(self).relay_pin(),
            final(self).relay_history() == old(self).relay_history().push(false),
    ;
}

/// The fixed relay pin list of each known board model, or None for an
/// unrecognized name.
pub open spec fn spec_board_pins(name: Seq<char>) -> Option<Seq<u8>> {
    if name == "PIM487"@ {
        Some(seq![16u8])
    } else if name == "PIM221"@ {
        Some(seq![16u8])
    } else if name == "PIM213"@ {
        Some(seq![13u8, 19u8, 16u8])
    } else if name == "RAS-109"@ || name == "RAS-194"@ {
        Some(seq![4u8, 17u8])
    } else {
        None
    }
}

/// True exactly when the two strings hold the same characters.
fn str_is(name: &str, lit: &str) -> (r: bool)
    ensures
        r == (name@ == lit@),
{
    let a = name.to_owned();
    let b = lit.to_owned();
    a == b
}

/// The relay pin list of a known board model, or None for an unrecognized
/// name.
pub fn pins_for_board(name: &str) -> (r: Option<Vec<u8>>)
    ensures
        match r {
            Some(pins) => spec_board_pins(name@) == Some(pins@),
            None => spec_board_pins(name@) is None,
        },
{
    if str_is(name, "PIM487") {
        let pins = vec![16u8];
        proof {
            assert(pins@ =~= seq![16u8]);
        }
        Some(pins)
    } else if str_is(name, "PIM221") {
        let pins = vec![16u8];
        proof {
            assert(pins@ =~= seq![16u8]);
        }
        Some(pins)
    } else if str_is(name, "PIM213") {
        let pins = vec![13u8, 19u8, 16u8];
        proof {
            assert(pins@ =~= seq![13u8, 19u8, 16u8]);
        }
        Some(pins)
    } else if str_is(name, "RAS-109") || str_is(name, "RAS-194") {
        let pins = vec![4u8, 17u8];
        proof {
            assert(pins@ =~= seq![4u8, 17u8]);
        }
        Some(pins)
    } else {
        None
    }
}

/// Builds the board a model name stands for: None for an unrecognized name,
/// an acquisition error if one of the board's pins cannot be acquired.
pub fn from_name<G: Gpio>(gpio: &G, name: &str) -> (r: Result<
    Option<PinBasedBoard<G::Pin>>,
    GpioError,
>)
    ensures
        match spec_board_pins(name@) {
            None => r matches Ok(ob) && ob is None,
            Some(bpins) => match r {
                Ok(ob) => {
                    &&& ob matches Some(b)
                    &&& b.relay_pins() == bpins
                    &&& forall|i: int| 0 <= i < bpins.len() ==> b.relay_history(i) == Seq::<bool>::empty()
                    &&& crate::board_pins::spec_acquire_pins(*gpio, bpins) is Ok
                },
                Err(e) => crate::board_pins::spec_acquire_pins(*gpio, bpins) == Err::<(), GpioError>(e),
            },
        },
{
    match pins_for_board(name) {
        None => Ok(None),
        Some(pins) => match PinBasedBoard::new(gpio, &pins) {
            Ok(b) => Ok(Some(b)),
            Err(e) => Err(e),
        },
    }
}

} // verus!
