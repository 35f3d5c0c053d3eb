//! Plain values shared by the marketplace: identifiers, notifications and errors.
use vstd::prelude::*;

verus! {

/// Identifier of an asset in the registry.
pub type Id = u64;

/// Identifier of an account.
pub type AccountId = u64;

/// Amount of the payment currency, in its smallest unit.
pub type Balance = u128;

/// Notification that the ownership of an asset changed.
#[derive(Clone, Copy, Debug, PartialEq, Eq, Structural)]
pub struct Transfer {
    pub from: Option<AccountId>,
    pub to: Option<AccountId>,
    pub id: Id,
}

/// Notification that an approval was granted or withdrawn.
#[derive(Clone, Copy, Debug, PartialEq, Eq, Structural)]
pub struct Approval {
    pub from: AccountId,
    pub to: AccountId,
    pub id: Option<Id>,
    pub approved: bool,
}

/// Notification that a listed asset was sold.
#[derive(Clone, Copy, Debug, PartialEq, Eq, Structural)]
pub struct Trade {
    pub seller: AccountId,
    pub buyer: AccountId,
    pub id: Id,
    pub price: Balance,
}

/// Every notification that the marketplace hands to its observers.
#[derive(Clone, Copy, Debug, PartialEq, Eq, Structural)]
pub enum Event {
    Transfer(Transfer),
    Approval(Approval),
    Trade(Trade),
}

/// Failures of the asset registry.
#[derive(Clone, Debug, PartialEq, Eq)]
pub enum PSP34Error {
    /// A failure that the registry reports with a message of its own.
    Custom(String),
    /// The caller may not move the asset.
    NotApproved,
    /// An asset with this id already exists.
    TokenExists,
    /// No asset with this id exists.
    TokenNotExists,
}

/// Failures of the marketplace operations.
#[derive(Clone, Debug, PartialEq, Eq)]
pub enum Error {
    /// The caller does not own the asset.
    NotTokenOwner,
    /// The owner tried to buy their own asset.
    SelfBuy,
    /// The asset has no listing.
    NotInSale,
    /// The payment differs from the listed price.
    NotMatchPrice,
    /// The asset is listed, so it cannot be transferred.
    TransferTokenInSale,
    /// A failure reported by the asset registry.
    Psp34(PSP34Error),
    /// The payment could not be moved.
    NativeTransfer,
}

/// Message of the registry error that stands for `TransferTokenInSale`.
pub open spec fn in_sale_message() -> Seq<char> {
    "TransferTokenInSale"@
}

/// Message of the registry error for every other marketplace error.
pub open spec fn undefined_message() -> Seq<char> {
    "Undefined for PSP34"@
}

/// The message that a marketplace error carries once it is reported by the registry.
pub open spec fn registry_message_of(e: Error) -> Seq<char> {
    match e {
        Error::TransferTokenInSale => in_sale_message(),
        _ => undefined_message(),
    }
}

/// `r` is the registry error that the marketplace error `e` becomes.
pub open spec fn is_registry_error_of(e: Error, r: PSP34Error) -> bool {
    match r {
        PSP34Error::Custom(m) => m@ == registry_message_of(e),
        _ => false,
    }
}

impl From<Error> for PSP34Error {
    /// The registry error that a marketplace error becomes: a custom one whose
    /// message names `TransferTokenInSale`, or says that the registry defines
    /// no error for it.
    fn from(err: Error) -> (r: Self)
        ensures
            is_registry_error_of(err, r),
    {
        match err {
            Error::TransferTokenInSale => {
                let m = "TransferTokenInSale";
                proof {
                    reveal_strlit("TransferTokenInSale");
                }
                PSP34Error::Custom(m.to_owned())
            },
            _ => {
                let m = "Undefined for PSP34";
                proof {
                    reveal_strlit("Undefined for PSP34");
                }
                PSP34Error::Custom(m.to_owned())
            },
        }
    }
}

/// A registry error holds a `String`, which no spec function builds, so the
/// conversion states its result in the `ensures` of `from` above.
impl vstd::std_specs::convert::FromSpecImpl<Error> for PSP34Error {
    open spec fn obeys_from_spec() -> bool {
        false
    }

    open spec fn from_spec(v: Error) -> Self {
        vstd::pervasive::arbitrary()
    }
}

impl From<PSP34Error> for Error {
    fn from(err: PSP34Error) -> (r: Self)
        ensures
            r == Error::Psp34(err),
    {
        Error::Psp34(err)
    }
}

impl vstd::std_specs::convert::FromSpecImpl<PSP34Error> for Error {
    open spec fn obeys_from_spec() -> bool {
        true
    }

    open spec fn from_spec(v: PSP34Error) -> Self {
        Error::Psp34(v)
    }
}

} // verus!
