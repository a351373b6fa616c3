//! A board assembled from an explicit list of GPIO pin numbers: one relay
//! per pin, each wrapping an exclusively owned pin handle.

use crate::board::Board;
use crate::board::BoardRelay;
use crate::gpio::Gpio;
use crate::gpio::GpioError;
use crate::gpio::GpioPin;
use vstd::prelude::*;

verus! {

/// One relay of a pin-based board: wraps the pin that drives it.
pub struct PinBasedRelay<P: GpioPin> {
    gpio_pin: P,
}

impl<P: GpioPin> BoardRelay for PinBasedRelay<P> {
    closed spec fn relay_pin(&self) -> u8 {
        self.gpio_pin.pin_id()
    }

    closed spec fn relay_history(&self) -> Seq<bool> {
        self.gpio_pin.history()
    }

    fn press(&mut self) {
        self.gpio_pin.set_high();
    }

    fn release(&mut self) {
        self.gpio_pin.set_low();
    }
}

/// A board whose relays are given by an ordered pin list.
pub struct PinBasedBoard<P: GpioPin> {
    gpio_pins: Vec<PinBasedRelay<P>>,
}

/// Outcome of acquiring every pin of the list, in order; the first failure
/// decides.
pub open spec fn spec_acquire_pins<G: Gpio>(gpio: G, pins: Seq<u8>) -> Result<(), GpioError>
    decreases pins.len(),
{
    if pins.len() == 0 {
        Ok(())
    } else if !gpio.get_ok(pins.first()) {
        Err(GpioError { pin: pins.first() })
    } else {
        spec_acquire_pins(gpio, pins.drop_first())
    }
}

proof fn lemma_acquire_pins_skip<G: Gpio>(gpio: G, pins: Seq<u8>, i: int)
    requires
        0 <= i <= pins.len(),
        forall|j: int| 0 <= j < i ==> gpio.get_ok(#[trigger] pins[j]),
    ensures
        spec_acquire_pins(gpio, pins) == spec_acquire_pins(gpio, pins.skip(i)),
    decreases i,
{
    if i == 0 {
        assert(pins.skip(0) =~= pins);
    } else {
        assert(pins.first() == pins[0]);
        lemma_acquire_pins_skip(gpio, pins.drop_first(), i - 1);
        assert forall|j: int| 0 <= j < i - 1 implies gpio.get_ok(#[trigger] pins.drop_first()[j]) by {
            assert(pins.drop_first()[j] == pins[j + 1]);
        }
        assert(pins.drop_first().skip(i - 1) =~= pins.skip(i));
    }
}

impl<P: GpioPin> PinBasedBoard<P> {
    /// Acquires one pin handle per listed pin number, in order. Succeeds
    /// exactly when every pin can be acquired; the first failure, in list
    /// order, is reported.
    pub fn new<G: Gpio<Pin = P>>(gpio: &G, pins: &Vec<u8>) -> (r: Result<PinBasedBoard<P>, GpioError>)
        ensures
            r is Ok <==> spec_acquire_pins(*gpio, pins@) is Ok,
            r matches Err(e) ==> spec_acquire_pins(*gpio, pins@) == Err::<(), GpioError>(e),
            r matches Ok(b) ==> {
                &&& b.relay_pins() == pins@
                &&& forall|i: int| 0 <= i < pins@.len() ==> b.relay_history(i) == Seq::<bool>::empty()
            },
    {
        let mut relays: Vec<PinBasedRelay<P>> = Vec::new();
        let mut idx: usize = 0;
        while idx < pins.len()
            invariant
                0 <= idx <= pins@.len(),
                relays@.len() == idx,
                forall|i: int| 0 <= i < idx ==> gpio.get_ok(#[trigger] pins@[i]),
                forall|i: int|
                    0 <= i < idx ==> (#[trigger] relays@[i]).relay_pin() == pins@[i]
                        && relays@[i].relay_history() == Seq::<bool>::empty(),
            decreases pins@.len() - idx,
        {
            match gpio.get(pins[idx]) {
                Ok(pin) => {
                    relays.push(PinBasedRelay { gpio_pin: pin });
                },
                Err(e) => {
                    proof {
                        lemma_acquire_pins_skip(*gpio, pins@, idx as int);
                        assert(pins@.skip(idx as int).first() == pins@[idx as int]);
                    }
                    return Err(e);
                },
            }
            idx += 1;
        }
        proof {
            lemma_acquire_pins_skip(*gpio, pins@, idx as int);
        }
        let board = PinBasedBoard { gpio_pins: relays };
        proof {
            assert(board.relay_pins() =~= pins@);
        }
        Ok(board)
    }
}

impl<P: GpioPin> Board for PinBasedBoard<P> {
    type Relay = PinBasedRelay<P>;

    closed spec fn relay_pins(&self) -> Seq<u8> {
        self.gpio_pins@.map_values(|r: PinBasedRelay<P>| r.relay_pin())
    }

    closed spec fn relay_history(&self, i: int) -> Seq<bool> {
        self.gpio_pins@[i].relay_history()
    }

    fn relays(&self) -> usize {
        self.gpio_pins.len()
    }

    fn press_relay(&mut self, index: usize) {
        let mut relay = self.gpio_pins.remove(index);
        relay.press();
        self.gpio_pins.insert(index, relay);
        proof {
            assert(self.gpio_pins@ =~= old(self).gpio_pins@.update(index as int, self.gpio_pins@[index as int]));
            assert(self.relay_pins() =~= old(self).relay_pins());
        }
    }

    fn release_relay(&mut self, index: usize) {
        let mut relay = self.gpio_pins.remove(index);
        relay.release();
        self.gpio_pins.insert(index, relay);
        proof {
            assert(self.gpio_pins@ =~= old(self).gpio_pins@.update(index as int, self.gpio_pins@[index as int]));
            assert(self.relay_pins() =~= old(self).relay_pins());
        }
    }
}

} // verus!
