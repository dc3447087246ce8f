//! Properties of the store that follow from the contracts of its operations.
use vstd::prelude::*;

use crate::pallet::Pallet;
use crate::types::{AccountId, Error, Origin, MAX_MESSAGE_LEN};

verus! {

/// A message longer than `MAX_MESSAGE_LEN` bytes is refused with
/// `MessageTooLong`, and the signer's slot keeps what it held.
pub proof fn lemma_too_long_is_refused(
    pre: Pallet,
    post: Pallet,
    who: AccountId,
    m: Seq<u8>,
    r: Result<(), Error>,
)
    requires
        m.len() > MAX_MESSAGE_LEN,
        Pallet::store_message_outcome(pre, post, Origin::Signed(who), m, r),
    ensures
        r == Err::<(), Error>(Error::MessageTooLong),
        post.message(who) == pre.message(who),
{
}

/// Storing twice for the same account leaves only the second message, whole:
/// the first is replaced, not merged.
pub proof fn lemma_store_overwrites(
    p0: Pallet,
    p1: Pallet,
    p2: Pallet,
    who: AccountId,
    m1: Seq<u8>,
    m2: Seq<u8>,
    r1: Result<(), Error>,
    r2: Result<(), Error>,
)
    requires
        m2.len() <= MAX_MESSAGE_LEN,
        Pallet::store_message_outcome(p0, p1, Origin::Signed(who), m1, r1),
        Pallet::store_message_outcome(p1, p2, Origin::Signed(who), m2, r2),
    ensures
        r2 == Ok::<(), Error>(()),
        p2.message(who) == m2,
{
}

/// Sending a non-empty message to another account moves it there and leaves
/// the sender's slot empty.
pub proof fn lemma_send_moves_message(
    pre: Pallet,
    post: Pallet,
    who: AccountId,
    recipient: AccountId,
    r: Result<(), Error>,
)
    requires
        pre.message(who).len() > 0,
        who != recipient,
        Pallet::send_message_outcome(pre, post, Origin::Signed(who), recipient, r),
    ensures
        r == Ok::<(), Error>(()),
        post.message(recipient) == pre.message(who),
        post.message(who) == Seq::<u8>::empty(),
{
}

/// Sending a non-empty message to oneself keeps it in place: the slot is not
/// emptied.
pub proof fn lemma_send_to_self_keeps_message(
    pre: Pallet,
    post: Pallet,
    who: AccountId,
    r: Result<(), Error>,
)
    requires
        pre.message(who).len() > 0,
        Pallet::send_message_outcome(pre, post, Origin::Signed(who), who, r),
    ensures
        r == Ok::<(), Error>(()),
        post.message(who) == pre.message(who),
{
}

/// Sending from an empty slot is refused with `NoMessageFound`, whoever the
/// recipient, and no slot changes.
pub proof fn lemma_send_from_empty_is_refused(
    pre: Pallet,
    post: Pallet,
    who: AccountId,
    recipient: AccountId,
    r: Result<(), Error>,
)
    requires
        pre.message(who) == Seq::<u8>::empty(),
        Pallet::send_message_outcome(pre, post, Origin::Signed(who), recipient, r),
    ensures
        r == Err::<(), Error>(Error::NoMessageFound),
        forall|k: AccountId| #[trigger] post.message(k) == pre.message(k),
{
}

/// A `store_message` that fails leaves the whole store exactly as it was.
pub proof fn lemma_failed_store_changes_nothing(
    pre: Pallet,
    post: Pallet,
    origin: Origin,
    m: Seq<u8>,
    r: Result<(), Error>,
)
    requires
        r is Err,
        Pallet::store_message_outcome(pre, post, origin, m, r),
    ensures
        post == pre,
{
}

/// A `send_message` that fails leaves the whole store exactly as it was.
pub proof fn lemma_failed_send_changes_nothing(
    pre: Pallet,
    post: Pallet,
    origin: Origin,
    recipient: AccountId,
    r: Result<(), Error>,
)
    requires
        r is Err,
        Pallet::send_message_outcome(pre, post, origin, recipient, r),
    ensures
        post == pre,
{
}

} // verus!
