use vstd::prelude::*;

verus! {

/// Identity of an account, as the host hands it over.
pub type AccountId = u64;

/// The largest number of bytes that a stored message may hold.
pub const MAX_MESSAGE_LEN: usize = 256;

/// Who a request comes from.
#[derive(Clone, Copy, Debug, PartialEq, Eq)]
pub enum Origin {
    /// A request signed by the given account.
    Signed(AccountId),
    /// A request made with the host's own authority, on behalf of no account.
    Root,
    /// A request that carries no identity.
    Unsigned,
}

/// Why a request was turned down. A request that fails changes nothing.
#[derive(Clone, Copy, Debug, PartialEq, Eq)]
pub enum Error {
    /// The request was not signed by an account.
    AuthenticationRequired,
    /// The message is longer than `MAX_MESSAGE_LEN` bytes.
    MessageTooLong,
    /// The sender holds no message (its slot is empty).
    NoMessageFound,
}

/// A notification appended after a request has been applied.
#[derive(Debug, PartialEq, Eq)]
pub enum Event {
    /// The account stored the message in its own slot.
    MessageStored(AccountId, Vec<u8>),
    /// The account handed the message over to another slot.
    MessageSent(AccountId, Vec<u8>),
}

/// An `Event` with its payload seen as a sequence of bytes.
pub enum EventView {
    MessageStored(AccountId, Seq<u8>),
    MessageSent(AccountId, Seq<u8>),
}

impl View for Event {
    type V = EventView;

    open spec fn view(&self) -> EventView {
        match self {
            Event::MessageStored(who, m) => EventView::MessageStored(*who, m@),
            Event::MessageSent(who, m) => EventView::MessageSent(*who, m@),
        }
    }
}

/// The account that signed a request, if one did.
pub open spec fn signer(origin: Origin) -> Option<AccountId> {
    match origin {
        Origin::Signed(who) => Some(who),
        _ => None,
    }
}

/// Returns the account that signed the request, or `AuthenticationRequired`
/// where no account did.
pub fn ensure_signed(origin: Origin) -> (r: Result<AccountId, Error>)
    ensures
        match signer(origin) {
            Some(who) => r == Ok::<AccountId, Error>(who),
            None => r == Err::<AccountId, Error>(Error::AuthenticationRequired),
        },
{
    match origin {
        Origin::Signed(who) => Ok(who),
        _ => Err(Error::AuthenticationRequired),
    }
}

} // verus!
