use crate::error::ErrorDetail;
use vstd::prelude::*;

verus! {

/// The number of keys on the keypad.
pub const NUMBER_OF_KEYS: u8 = 16;

/// The pressed / not pressed state of each key of the 16-key keypad.
#[derive(Clone, Copy, Debug, PartialEq, Eq)]
pub struct KeyState {
    /// One flag per key ordinal (true means pressed)
    pub keys_pressed: [bool; 16],
}

impl KeyState {
    /// A keypad with no key pressed.
    pub fn new() -> (r: KeyState)
        ensures
            forall|k: int| 0 <= k < 16 ==> !#[trigger] r.keys_pressed@[k],
    {
        KeyState { keys_pressed: [false; 16] }
    }

    /// Whether `key` is pressed; fails with [ErrorDetail::InvalidKey] for a key beyond 0xF.
    pub fn is_key_pressed(&self, key: u8) -> (r: Result<bool, ErrorDetail>)
        ensures
            key < NUMBER_OF_KEYS ==> r == Ok::<bool, ErrorDetail>(self.keys_pressed@[key as int]),
            key >= NUMBER_OF_KEYS ==> r == Err::<bool, _>(ErrorDetail::InvalidKey { key }),
    {
        if key < NUMBER_OF_KEYS {
            Ok(self.keys_pressed[key as usize])
        } else {
            Err(ErrorDetail::InvalidKey { key })
        }
    }

    /// Sets the state of `key`; fails with [ErrorDetail::InvalidKey] (and changes nothing) for
    /// a key beyond 0xF.
    pub fn set_key_status(&mut self, key: u8, status: bool) -> (r: Result<(), ErrorDetail>)
        ensures
            key < NUMBER_OF_KEYS ==> r is Ok && final(self).keys_pressed@
                == old(self).keys_pressed@.update(key as int, status),
            key >= NUMBER_OF_KEYS ==> r == Err::<(), _>(ErrorDetail::InvalidKey { key })
                && *final(self) == *old(self),
    {
        if key < NUMBER_OF_KEYS {
            self.keys_pressed[key as usize] = status;
            Ok(())
        } else {
            Err(ErrorDetail::InvalidKey { key })
        }
    }

    /// The ordinals of all pressed keys in ascending order, or `None` when no key is pressed.
    pub fn get_keys_pressed(&self) -> (r: Option<Vec<u8>>)
        ensures
            r is None <==> (forall|k: int| 0 <= k < 16 ==> !#[trigger] self.keys_pressed@[k]),
            r is Some ==> r.unwrap()@ == pressed_keys(self.keys_pressed@, 16),
    {
        let mut keys: Vec<u8> = Vec::new();
        let mut i: u8 = 0;
        while i < NUMBER_OF_KEYS
            invariant
                i <= 16,
                keys@ == pressed_keys(self.keys_pressed@, i as int),
                keys@.len() == 0 <==> (forall|k: int| 0 <= k < i ==> !#[trigger] self.keys_pressed@[k]),
            decreases 16 - i,
        {
            if self.keys_pressed[i as usize] {
                keys.push(i);
            }
            i = i + 1;
        }
        if keys.len() > 0 {
            Some(keys)
        } else {
            None
        }
    }
}

/// The ordinals below `n` whose flag is set, in ascending order.
pub open spec fn pressed_keys(flags: Seq<bool>, n: int) -> Seq<u8>
    decreases n,
{
    if n <= 0 {
        Seq::empty()
    } else if flags[n - 1] {
        pressed_keys(flags, n - 1).push((n - 1) as u8)
    } else {
        pressed_keys(flags, n - 1)
    }
}

} // verus!
