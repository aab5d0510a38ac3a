//! What holds of every step and every run of the machine, proved from the
//! transition function.

use vstd::prelude::*;
use crate::amount::all_digits;
use crate::amount::spelled_amount;
use crate::amount::decimal_digits;
use crate::amount::withdrawable;
use crate::amount::law_amount_within_balance_passes_length_guard;
use crate::amount::law_digits_spell_a_number;
use crate::atm::Action;
use crate::atm::AtmState;
use crate::atm::Auth;
use crate::atm::keystrokes;
use crate::atm::pin_accepted;
use crate::fingerprint::fingerprint;
use crate::fingerprint::has_fingerprint;
use crate::keypad::Key;

verus! {

/// While the machine waits for a card, a key press changes nothing.
pub proof fn law_key_is_ignored_while_waiting(state: AtmState, key: Key)
    requires
        state.auth_state == Auth::Waiting,
    ensures
        state.step(Action::PressKey(key)) == state,
{
}

/// A card swiped at a waiting machine opens a session that expects the
/// card's fingerprint; cash and register stay as they were.
pub proof fn law_swipe_opens_session(state: AtmState, expected: u64)
    requires
        state.auth_state == Auth::Waiting,
    ensures
        state.step(Action::SwipeCard(expected)) == (AtmState {
            auth_state: Auth::Authenticating(expected),
            ..state
        }),
{
}

/// Swiping the same card again during PIN entry changes nothing.
pub proof fn law_same_card_again_changes_nothing(state: AtmState, expected: u64)
    requires
        state.auth_state == Auth::Authenticating(expected),
    ensures
        state.step(Action::SwipeCard(expected)) == state,
{
}

/// Swiping another card during PIN entry starts that card's session with an
/// empty register, so that no digit keyed for the first card counts for the
/// second.
pub proof fn law_other_card_starts_afresh(state: AtmState, expected: u64, incoming: u64)
    requires
        state.auth_state == Auth::Authenticating(expected),
        incoming != expected,
    ensures
        state.step(Action::SwipeCard(incoming)) == (AtmState {
            cash_inside: state.cash_inside,
            auth_state: Auth::Authenticating(incoming),
            keystroke_register: Seq::empty(),
        }),
{
}

/// Confirming a register whose fingerprint is the expected one authenticates
/// the session and clears the register.
pub proof fn law_right_pin_authenticates(state: AtmState, expected: u64)
    requires
        state.auth_state == Auth::Authenticating(expected),
        has_fingerprint(state.keystroke_register),
        fingerprint(state.keystroke_register) == expected,
    ensures
        state.step(Action::PressKey(Key::Enter)) == (AtmState {
            cash_inside: state.cash_inside,
            auth_state: Auth::Authenticated,
            keystroke_register: Seq::empty(),
        }),
{
}

/// Confirming a register with any other fingerprint, or with none, ends the
/// session and clears the register.
pub proof fn law_wrong_pin_ends_session(state: AtmState, expected: u64)
    requires
        state.auth_state == Auth::Authenticating(expected),
        !has_fingerprint(state.keystroke_register) || fingerprint(state.keystroke_register)
            != expected,
    ensures
        state.step(Action::PressKey(Key::Enter)) == (AtmState {
            cash_inside: state.cash_inside,
            auth_state: Auth::Waiting,
            keystroke_register: Seq::empty(),
        }),
{
}

/// During a session every key but `Enter` goes to the end of the register and
/// changes nothing else.
pub proof fn law_key_joins_register(state: AtmState, key: Key)
    requires
        state.auth_state != Auth::Waiting,
        key != Key::Enter,
    ensures
        state.step(Action::PressKey(key)) == (AtmState {
            keystroke_register: state.keystroke_register.push(key),
            ..state
        }),
{
}

/// During a session a run of keys without `Enter` is appended to the register
/// in the order pressed; the cash and the authentication state are untouched.
pub proof fn law_keys_join_register_in_order(state: AtmState, keys: Seq<Key>)
    requires
        state.auth_state != Auth::Waiting,
        all_digits(keys),
    ensures
        state.run(keystrokes(keys)) == (AtmState {
            keystroke_register: state.keystroke_register + keys,
            ..state
        }),
    decreases keys.len(),
{
    if keys.len() == 0 {
        assert(state.keystroke_register + keys =~= state.keystroke_register);
    } else {
        let front = keys.drop_last();
        assert(keystrokes(keys).drop_last() =~= keystrokes(front));
        assert(keystrokes(keys).last() == Action::PressKey(keys.last()));
        assert(keys.last() == keys[keys.len() - 1]);
        assert forall|i: int| 0 <= i < front.len() implies (#[trigger] front[i])
            .digit_value().is_some() by {
            assert(front[i] == keys[i]);
        }
        law_keys_join_register_in_order(state, front);
        assert((state.keystroke_register + front).push(keys.last()) =~= state.keystroke_register
            + keys);
    }
}

/// The cash changes at one place only: when `Enter` confirms an amount in an
/// authenticated session. It never grows.
pub proof fn law_cash_moves_only_on_confirmed_amount(state: AtmState, action: Action)
    ensures
        state.step(action).cash_inside <= state.cash_inside,
        state.step(action).cash_inside != state.cash_inside ==> state.auth_state
            == Auth::Authenticated && action == Action::PressKey(Key::Enter),
{
}

/// A confirmed amount that the register spells within its length limit and
/// that the machine holds is taken from the cash, exactly; the session ends
/// and the register is cleared.
pub proof fn law_granted_withdrawal_takes_exact_amount(state: AtmState, amount: nat)
    requires
        state.auth_state == Auth::Authenticated,
        spelled_amount(state.keystroke_register) == Some(amount),
        state.keystroke_register.len() <= decimal_digits(state.cash_inside),
        amount <= state.cash_inside,
    ensures
        state.step(Action::PressKey(Key::Enter)) == (AtmState {
            cash_inside: (state.cash_inside - amount) as nat,
            auth_state: Auth::Waiting,
            keystroke_register: Seq::empty(),
        }),
{
}

/// A confirmed register that spells no number, that is longer than the cash
/// has digits, or that spells more than the machine holds leaves the cash as it
/// is; the session ends and the register is cleared all the same.
pub proof fn law_refused_withdrawal_keeps_cash(state: AtmState)
    requires
        state.auth_state == Auth::Authenticated,
        match spelled_amount(state.keystroke_register) {
            Some(amount) => amount > state.cash_inside || state.keystroke_register.len()
                > decimal_digits(state.cash_inside),
            None => true,
        },
    ensures
        state.step(Action::PressKey(Key::Enter)) == (AtmState {
            cash_inside: state.cash_inside,
            auth_state: Auth::Waiting,
            keystroke_register: Seq::empty(),
        }),
{
}

/// A card swiped into an authenticated session discards the amount keyed so
/// far and changes nothing else.
pub proof fn law_swipe_discards_pending_amount(state: AtmState, incoming: u64)
    requires
        state.auth_state == Auth::Authenticated,
    ensures
        state.step(Action::SwipeCard(incoming)) == (AtmState {
            keystroke_register: Seq::empty(),
            ..state
        }),
{
}

/// A freshly filled machine is well formed.
pub proof fn law_initial_state_is_well_formed(cash_inside: nat)
    ensures
        AtmState::initial(cash_inside).well_formed(),
{
}

/// Every step keeps a well-formed state well formed.
pub proof fn law_step_keeps_well_formed(state: AtmState, action: Action)
    requires
        state.well_formed(),
    ensures
        state.step(action).well_formed(),
{
    let next = state.step(action);
    if let Action::PressKey(key) = action {
        if key != Key::Enter && state.auth_state != Auth::Waiting {
            assert forall|i: int| 0 <= i < next.keystroke_register.len() implies (
            #[trigger] next.keystroke_register[i]).digit_value().is_some() by {
                if i < state.keystroke_register.len() {
                    assert(next.keystroke_register[i] == state.keystroke_register[i]);
                }
            }
        }
    }
}

/// Every run keeps a well-formed state well formed and never adds cash.
pub proof fn law_run_keeps_well_formed(state: AtmState, actions: Seq<Action>)
    requires
        state.well_formed(),
    ensures
        state.run(actions).well_formed(),
        state.run(actions).cash_inside <= state.cash_inside,
    decreases actions.len(),
{
    if actions.len() > 0 {
        law_run_keeps_well_formed(state, actions.drop_last());
        law_step_keeps_well_formed(state.run(actions.drop_last()), actions.last());
    }
}

/// In a well-formed state the register always has a fingerprint and always
/// spells a number, so `Enter` is decided by the fingerprint or the amount
/// alone.
pub proof fn law_well_formed_register_is_readable(state: AtmState)
    requires
        state.well_formed(),
    ensures
        has_fingerprint(state.keystroke_register),
        spelled_amount(state.keystroke_register).is_some(),
{
    law_digits_spell_a_number(state.keystroke_register);
    if state.keystroke_register.len() > 0 {
        assert(state.keystroke_register[0].digit_value().is_some());
    }
}

/// Applying one run after another is applying the two joined.
pub proof fn law_runs_compose(state: AtmState, first: Seq<Action>, second: Seq<Action>)
    ensures
        state.run(first + second) == state.run(first).run(second),
    decreases second.len(),
{
    if second.len() == 0 {
        assert(first + second =~= first);
    } else {
        assert((first + second).drop_last() =~= first + second.drop_last());
        assert((first + second).last() == second.last());
        law_runs_compose(state, first, second.drop_last());
    }
}

/// A run of one action is one step.
pub proof fn law_run_of_one_is_a_step(state: AtmState, action: Action)
    ensures
        state.run(seq![action]) == state.step(action),
{
    assert(seq![action].drop_last() =~= Seq::<Action>::empty());
    assert(seq![action].last() == action);
    assert(state.run(Seq::<Action>::empty()) == state);
}

/// The actions of a whole session: the card is swiped, `pin` is keyed and
/// confirmed, `request` is keyed and confirmed.
pub open spec fn session(card: u64, pin: Seq<Key>, request: Seq<Key>) -> Seq<Action> {
    seq![Action::SwipeCard(card)] + keystrokes(pin) + seq![Action::PressKey(Key::Enter)]
        + keystrokes(request) + seq![Action::PressKey(Key::Enter)]
}

/// A whole session at a freshly filled machine, with the PIN that the card
/// expects and an amount that the machine holds, leaves the machine waiting
/// with exactly that amount less.
pub proof fn law_session_with_right_pin_pays_out(
    cash_inside: nat,
    pin: Seq<Key>,
    request: Seq<Key>,
    amount: nat,
)
    requires
        all_digits(pin),
        spelled_amount(request) == Some(amount),
        amount <= cash_inside,
    ensures
        AtmState::initial(cash_inside).run(session(fingerprint(pin), pin, request))
            == AtmState::initial((cash_inside - amount) as nat),
{
    let card = fingerprint(pin);
    let enter = Action::PressKey(Key::Enter);
    let start = AtmState::initial(cash_inside);
    let swiped = AtmState { auth_state: Auth::Authenticating(card), ..start };
    let keyed = AtmState { keystroke_register: pin, ..swiped };
    let inside = AtmState { auth_state: Auth::Authenticated, ..start };
    let asked = AtmState { keystroke_register: request, ..inside };

    let to_swiped = seq![Action::SwipeCard(card)];
    let to_keyed = to_swiped + keystrokes(pin);
    let to_inside = to_keyed + seq![enter];
    let to_asked = to_inside + keystrokes(request);

    law_run_of_one_is_a_step(start, Action::SwipeCard(card));
    assert(start.run(to_swiped) == swiped);

    law_runs_compose(start, to_swiped, keystrokes(pin));
    law_keys_join_register_in_order(swiped, pin);
    assert(swiped.keystroke_register + pin =~= pin);
    assert(start.run(to_keyed) == keyed);

    law_runs_compose(start, to_keyed, seq![enter]);
    law_run_of_one_is_a_step(keyed, enter);
    if pin.len() > 0 {
        assert(pin[0].digit_value().is_some());
    }
    assert(pin_accepted(pin, card));
    assert(start.run(to_inside) == inside);

    law_runs_compose(start, to_inside, keystrokes(request));
    law_digits_spell_a_number(request);
    law_keys_join_register_in_order(inside, request);
    assert(inside.keystroke_register + request =~= request);
    assert(start.run(to_asked) == asked);

    law_runs_compose(start, to_asked, seq![enter]);
    law_run_of_one_is_a_step(asked, enter);
    law_amount_within_balance_passes_length_guard(cash_inside, request);
    assert(withdrawable(cash_inside, request) == Some(amount));
}

/// A whole session with a PIN whose fingerprint is not the card's leaves the
/// machine as it was found, whatever is keyed after the PIN.
pub proof fn law_session_with_wrong_pin_pays_nothing(
    cash_inside: nat,
    card: u64,
    pin: Seq<Key>,
    request: Seq<Key>,
)
    requires
        all_digits(pin),
        fingerprint(pin) != card,
    ensures
        AtmState::initial(cash_inside).run(session(card, pin, request)) == AtmState::initial(
            cash_inside,
        ),
{
    let enter = Action::PressKey(Key::Enter);
    let start = AtmState::initial(cash_inside);
    let swiped = AtmState { auth_state: Auth::Authenticating(card), ..start };
    let keyed = AtmState { keystroke_register: pin, ..swiped };

    let to_swiped = seq![Action::SwipeCard(card)];
    let to_keyed = to_swiped + keystrokes(pin);
    let to_refused = to_keyed + seq![enter];
    let to_asked = to_refused + keystrokes(request);

    law_run_of_one_is_a_step(start, Action::SwipeCard(card));
    law_runs_compose(start, to_swiped, keystrokes(pin));
    law_keys_join_register_in_order(swiped, pin);
    assert(swiped.keystroke_register + pin =~= pin);
    assert(start.run(to_keyed) == keyed);

    law_runs_compose(start, to_keyed, seq![enter]);
    law_run_of_one_is_a_step(keyed, enter);
    assert(start.run(to_refused) == start);

    law_runs_compose(start, to_refused, keystrokes(request));
    law_keys_change_nothing_while_waiting(start, request);
    assert(start.run(to_asked) == start);

    law_runs_compose(start, to_asked, seq![enter]);
    law_run_of_one_is_a_step(start, enter);
}

/// While the machine waits for a card, no run of key presses changes
/// anything.
pub proof fn law_keys_change_nothing_while_waiting(state: AtmState, keys: Seq<Key>)
    requires
        state.auth_state == Auth::Waiting,
    ensures
        state.run(keystrokes(keys)) == state,
    decreases keys.len(),
{
    if keys.len() > 0 {
        assert(keystrokes(keys).drop_last() =~= keystrokes(keys.drop_last()));
        law_keys_change_nothing_while_waiting(state, keys.drop_last());
    }
}

} // verus!
