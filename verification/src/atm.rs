//! The automated teller machine. A swiped card tells the machine the
//! fingerprint of the right PIN; the machine then waits for the PIN and
//! `Enter`. A wrong PIN ends the session. After the right one the machine
//! waits for an amount and `Enter`, and hands out what was asked for if it
//! holds that much cash.

use vstd::prelude::*;
use crate::amount::all_digits;
use crate::amount::withdrawable;
use crate::amount::withdrawal_amount;
use crate::fingerprint::has_fingerprint;
use crate::fingerprint::fingerprint;
use crate::fingerprint::try_hash;
use crate::keypad::Key;
use crate::laws::law_step_keeps_well_formed;
use crate::state_machine::StateMachine;

verus! {

/// Something you can do to the ATM.
#[derive(Clone, Copy, Debug)]
pub enum Action {
    /// Swipe your card at the ATM. The attached value is the fingerprint of
    /// the PIN that should be keyed in on the keypad next.
    SwipeCard(u64),
    /// Press a key on the keypad.
    PressKey(Key),
}

/// The various states of authentication possible with the ATM.
#[derive(Clone, Copy, PartialEq, Eq, Structural, Debug)]
pub enum Auth {
    /// No session has begun yet. Waiting for the user to swipe their card.
    Waiting,
    /// The user has swiped their card, providing the enclosed PIN fingerprint.
    /// Waiting for the user to key in their PIN.
    Authenticating(u64),
    /// The user has authenticated. Waiting for them to key in the amount of
    /// cash to withdraw.
    Authenticated,
}

impl Default for Auth {
    fn default() -> (auth: Auth)
        ensures
            auth == Auth::Waiting,
    {
        Auth::Waiting
    }
}

/// The ATM. Withdrawals are bounded only by the cash in the machine: there is
/// no account balance.
#[derive(PartialEq, Debug)]
pub struct Atm {
    /// How much money is in the ATM.
    pub cash_inside: u64,
    /// The machine's authentication status.
    pub auth_state: Auth,
    /// All the keys that have been pressed since the last `Enter`.
    pub keystroke_register: Vec<Key>,
}

/// The state of an ATM as a mathematical value.
pub struct AtmState {
    /// How much money is in the ATM.
    pub cash_inside: nat,
    /// The machine's authentication status.
    pub auth_state: Auth,
    /// All the keys that have been pressed since the last `Enter`.
    pub keystroke_register: Seq<Key>,
}

impl Clone for Atm {
    fn clone(&self) -> (copy: Atm)
        ensures
            copy@ == self@,
    {
        Atm {
            cash_inside: self.cash_inside,
            auth_state: self.auth_state,
            keystroke_register: self.keystroke_register.clone(),
        }
    }
}

impl View for Atm {
    type V = AtmState;

    open spec fn view(&self) -> AtmState {
        AtmState {
            cash_inside: self.cash_inside as nat,
            auth_state: self.auth_state,
            keystroke_register: self.keystroke_register@,
        }
    }
}

/// Whether the keys in `register`, confirmed with `Enter`, authenticate a
/// card that expects the fingerprint `expected`.
pub open spec fn pin_accepted(register: Seq<Key>, expected: u64) -> bool {
    has_fingerprint(register) && fingerprint(register) == expected
}

/// The cash left in the machine once `register` has been confirmed as a
/// withdrawal request: less by the amount asked for where the request is
/// granted, unchanged where it is not.
pub open spec fn cash_after_request(cash_inside: nat, register: Seq<Key>) -> nat {
    match withdrawable(cash_inside, register) {
        Some(amount) => (cash_inside - amount) as nat,
        None => cash_inside,
    }
}

impl AtmState {
    /// The state of a machine that was just filled with `cash_inside`.
    pub open spec fn initial(cash_inside: nat) -> AtmState {
        AtmState { cash_inside, auth_state: Auth::Waiting, keystroke_register: Seq::empty() }
    }

    /// What holds of every state that a machine reaches: outside a session
    /// the register is empty, and it never holds `Enter`.
    pub open spec fn well_formed(self) -> bool {
        &&& self.auth_state == Auth::Waiting ==> self.keystroke_register.len() == 0
        &&& all_digits(self.keystroke_register)
    }

    /// The state that follows when `action` is applied to this one.
    pub open spec fn step(self, action: Action) -> AtmState {
        match self.auth_state {
            Auth::Waiting => match action {
                Action::SwipeCard(expected) => AtmState {
                    auth_state: Auth::Authenticating(expected),
                    ..self
                },
                Action::PressKey(_) => self,
            },
            Auth::Authenticating(expected) => match action {
                Action::PressKey(Key::Enter) => AtmState {
                    auth_state: if pin_accepted(self.keystroke_register, expected) {
                        Auth::Authenticated
                    } else {
                        Auth::Waiting
                    },
                    keystroke_register: Seq::empty(),
                    ..self
                },
                Action::PressKey(key) => AtmState {
                    keystroke_register: self.keystroke_register.push(key),
                    ..self
                },
                Action::SwipeCard(incoming) => if incoming == expected {
                    self
                } else {
                    AtmState {
                        auth_state: Auth::Authenticating(incoming),
                        keystroke_register: Seq::empty(),
                        ..self
                    }
                },
            },
            Auth::Authenticated => match action {
                Action::PressKey(Key::Enter) => AtmState {
                    cash_inside: cash_after_request(self.cash_inside, self.keystroke_register),
                    auth_state: Auth::Waiting,
                    keystroke_register: Seq::empty(),
                },
                Action::PressKey(key) => AtmState {
                    keystroke_register: self.keystroke_register.push(key),
                    ..self
                },
                Action::SwipeCard(_) => AtmState { keystroke_register: Seq::empty(), ..self },
            },
        }
    }

    /// The state that a driver reaches from this one by applying `actions`
    /// one at a time, in order.
    pub open spec fn run(self, actions: Seq<Action>) -> AtmState
        decreases actions.len(),
    {
        if actions.len() == 0 {
            self
        } else {
            self.run(actions.drop_last()).step(actions.last())
        }
    }
}

/// The actions of pressing `keys` one after another.
pub open spec fn keystrokes(keys: Seq<Key>) -> Seq<Action> {
    Seq::new(keys.len(), |i: int| Action::PressKey(keys[i]))
}

impl Atm {
    /// A machine filled with `cash_inside`, with no session open.
    pub fn new(cash_inside: u64) -> (atm: Atm)
        ensures
            atm@ == AtmState::initial(cash_inside as nat),
            atm@.well_formed(),
    {
        Atm { cash_inside, auth_state: Auth::default(), keystroke_register: Vec::new() }
    }

    /// This machine in another authentication state, the register kept.
    fn with_auth(&self, auth_state: Auth) -> (atm: Atm)
        ensures
            atm@ == (AtmState { auth_state, ..self@ }),
    {
        Atm {
            cash_inside: self.cash_inside,
            auth_state,
            keystroke_register: self.keystroke_register.clone(),
        }
    }

    /// This machine with one more key in the register.
    fn with_key(&self, key: Key) -> (atm: Atm)
        ensures
            atm@ == (AtmState {
                keystroke_register: self@.keystroke_register.push(key),
                ..self@
            }),
    {
        let mut keystroke_register = self.keystroke_register.clone();
        keystroke_register.push(key);
        Atm { cash_inside: self.cash_inside, auth_state: self.auth_state, keystroke_register }
    }

    /// A machine with the register cleared.
    fn cleared(cash_inside: u64, auth_state: Auth) -> (atm: Atm)
        ensures
            atm@ == (AtmState {
                cash_inside: cash_inside as nat,
                auth_state,
                keystroke_register: Seq::empty(),
            }),
    {
        Atm { cash_inside, auth_state, keystroke_register: Vec::new() }
    }
}

impl StateMachine for Atm {
    type State = Atm;

    type Transition = Action;

    open spec fn successor(&self, transition: &Action) -> AtmState {
        self@.step(*transition)
    }

    fn next_state(&self, transition: &Action) -> (next: Atm)
        ensures
            next@ == self@.step(*transition),
            self@.well_formed() ==> next@.well_formed(),
    {
        proof {
            if self@.well_formed() {
                law_step_keeps_well_formed(self@, *transition);
            }
        }
        match self.auth_state {
            Auth::Waiting => match transition {
                Action::SwipeCard(expected) => self.with_auth(Auth::Authenticating(*expected)),
                Action::PressKey(_) => self.clone(),
            },
            Auth::Authenticating(expected) => match transition {
                Action::PressKey(Key::Enter) => {
                    let accepted = match try_hash(&self.keystroke_register) {
                        Some(received) => received == expected,
                        None => false,
                    };
                    if accepted {
                        Atm::cleared(self.cash_inside, Auth::Authenticated)
                    } else {
                        Atm::cleared(self.cash_inside, Auth::default())
                    }
                },
                Action::PressKey(key) => self.with_key(*key),
                Action::SwipeCard(incoming) => {
                    if *incoming == expected {
                        self.clone()
                    } else {
                        Atm::cleared(self.cash_inside, Auth::Authenticating(*incoming))
                    }
                },
            },
            Auth::Authenticated => match transition {
                Action::PressKey(Key::Enter) => {
                    let cash_inside: u64 = match withdrawal_amount(
                        &self.keystroke_register,
                        self.cash_inside,
                    ) {
                        Some(amount) => self.cash_inside - amount,
                        None => self.cash_inside,
                    };
                    Atm::cleared(cash_inside, Auth::default())
                },
                Action::PressKey(key) => self.with_key(*key),
                Action::SwipeCard(_) => Atm::cleared(self.cash_inside, self.auth_state),
            },
        }
    }
}

} // verus!
