use vstd::prelude::*;
use vstd::string::StringExecFns;

verus! {

/// Every failure that the control core reports to its host.
#[derive(Debug, Clone, Copy, PartialEq, Eq, Structural)]
pub enum ServiceError {
    /// A node is already installed.
    AlreadyRunning,
    /// The network name is not one of the accepted aliases.
    InvalidNetwork,
    /// The operation needs a running node or wallet and there is none.
    NotRunning,
    /// Shutdown refused: this many references to the node handle remain,
    /// the context's own included.
    Busy(u32),
    /// A filesystem operation failed.
    Io,
    /// A seed phrase (or a descriptor) does not parse.
    Format,
    /// A key-derivation step failed.
    Derivation,
    /// The wallet could not be built from its descriptors.
    WalletCreate,
    /// A seed phrase file is already present in the data directory.
    AlreadyExists,
}

/// The text of one decimal digit.
pub open spec fn digit_text(d: nat) -> Seq<char> {
    if d == 0 {
        "0"@
    } else if d == 1 {
        "1"@
    } else if d == 2 {
        "2"@
    } else if d == 3 {
        "3"@
    } else if d == 4 {
        "4"@
    } else if d == 5 {
        "5"@
    } else if d == 6 {
        "6"@
    } else if d == 7 {
        "7"@
    } else if d == 8 {
        "8"@
    } else {
        "9"@
    }
}

/// The decimal text of a number, without leading zeros.
pub open spec fn decimal_text(n: nat) -> Seq<char>
    decreases n,
{
    if n < 10 {
        digit_text(n)
    } else {
        decimal_text(n / 10) + digit_text(n % 10)
    }
}

fn digit_str(d: u32) -> (r: &'static str)
    requires
        d < 10,
    ensures
        r@ == digit_text(d as nat),
{
    match d {
        0 => "0",
        1 => "1",
        2 => "2",
        3 => "3",
        4 => "4",
        5 => "5",
        6 => "6",
        7 => "7",
        8 => "8",
        _ => "9",
    }
}

/// Appends the decimal text of `n` to `s`.
pub fn append_decimal(s: &mut String, n: u32)
    ensures
        final(s)@ == old(s)@ + decimal_text(n as nat),
    decreases n,
{
    if n < 10 {
        s.append(digit_str(n));
    } else {
        append_decimal(s, n / 10);
        s.append(digit_str(n % 10));
        assert(final(s)@ =~= old(s)@ + decimal_text(n as nat));
    }
}

/// The message shown to the user for an error.
pub open spec fn error_text(e: ServiceError) -> Seq<char> {
    match e {
        ServiceError::AlreadyRunning => "Node already running"@,
        ServiceError::InvalidNetwork => "Invalid network"@,
        ServiceError::NotRunning => "Wallet not initialized"@,
        ServiceError::Busy(n) => "Cannot shutdown: "@ + decimal_text(n as nat)
            + " references remain"@,
        ServiceError::Io => "Filesystem error"@,
        ServiceError::Format => "Invalid mnemonic"@,
        ServiceError::Derivation => "Failed to derive keys"@,
        ServiceError::WalletCreate => "Failed to create wallet"@,
        ServiceError::AlreadyExists => "Wallet already exists"@,
    }
}

impl ServiceError {
    pub fn description(&self) -> (r: String)
        ensures
            r@ == error_text(*self),
    {
        match self {
            ServiceError::AlreadyRunning => String::from_str("Node already running"),
            ServiceError::InvalidNetwork => String::from_str("Invalid network"),
            ServiceError::NotRunning => String::from_str("Wallet not initialized"),
            ServiceError::Busy(n) => {
                let mut s = String::from_str("Cannot shutdown: ");
                append_decimal(&mut s, *n);
                s.append(" references remain");
                s
            },
            ServiceError::Io => String::from_str("Filesystem error"),
            ServiceError::Format => String::from_str("Invalid mnemonic"),
            ServiceError::Derivation => String::from_str("Failed to derive keys"),
            ServiceError::WalletCreate => String::from_str("Failed to create wallet"),
            ServiceError::AlreadyExists => String::from_str("Wallet already exists"),
        }
    }
}

} // verus!
