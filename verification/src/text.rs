//! Rendering errors as the messages the service boundary returns, including
//! a verified decimal rendering of identifiers.
use vstd::prelude::*;
use vstd::string::StringExecFns;
use crate::records::Error;

verus! {

/// The character of a single decimal digit.
pub open spec fn digit_char(d: nat) -> char {
    if d == 0 {
        '0'
    } else if d == 1 {
        '1'
    } else if d == 2 {
        '2'
    } else if d == 3 {
        '3'
    } else if d == 4 {
        '4'
    } else if d == 5 {
        '5'
    } else if d == 6 {
        '6'
    } else if d == 7 {
        '7'
    } else if d == 8 {
        '8'
    } else {
        '9'
    }
}

/// The decimal rendering of a number, most significant digit first.
pub open spec fn dec_text(n: nat) -> Seq<char>
    decreases n,
{
    if n < 10 {
        seq![digit_char(n)]
    } else {
        dec_text(n / 10) + seq![digit_char(n % 10)]
    }
}

/// The message under which an error reaches the caller of a read or a
/// create: a validation failure names the rejected value and the allowed
/// set, a not-found failure names the identifier and the record kind.
pub open spec fn error_text(e: Error) -> Seq<char> {
    match e {
        Error::InvalidTimberType { given } => "Invalid timber type: "@ + given@
            + ". Valid types are: [\"cyprus\", \"pine\", \"oak\", \"cedar\", \"spruce\"]"@,
        Error::InvalidTimberSize { given } => "Invalid timber size: "@ + given@
            + ". Valid sizes are: [\"2x4\", \"2x6\", \"2x8\", \"2x10\", \"3x2\", \"3x4\", \"4x2\", \"4x4\", \"4x6\", \"6x2\", \"6x4\", \"8x2\", \"8x4\", \"10x2\", \"10x4\"]"@,
        Error::ZeroQuantity => "Quantity must be greater than zero"@,
        Error::ZeroPrice => "Price must be greater than zero"@,
        Error::TimberNotFound { id } => "Timber with id="@ + dec_text(id as nat) + " not found"@,
        Error::SalesNotFound { id } => "Sales with id="@ + dec_text(id as nat) + " not found"@,
    }
}

/// The message under which an error reaches the caller of an update: a
/// missing record names the operation besides the identifier and the record
/// kind; every other error reads as at a create.
pub open spec fn update_error_text(e: Error) -> Seq<char> {
    match e {
        Error::TimberNotFound { id } => "Couldn't update timber with id="@ + dec_text(id as nat)
            + ". Timber not found"@,
        Error::SalesNotFound { id } => "Couldn't update sales with id="@ + dec_text(id as nat)
            + ". Sales not found"@,
        _ => error_text(e),
    }
}

/// The message under which an error reaches the caller of a delete.
pub open spec fn delete_error_text(e: Error) -> Seq<char> {
    match e {
        Error::TimberNotFound { id } => "Couldn't delete timber with id="@ + dec_text(id as nat)
            + ". Timber not found"@,
        Error::SalesNotFound { id } => "Couldn't delete sales with id="@ + dec_text(id as nat)
            + ". Sales not found"@,
        _ => error_text(e),
    }
}

/// The text of a single decimal digit.
fn digit_str(d: u64) -> (r: &'static str)
    requires
        d < 10,
    ensures
        r@ == seq![digit_char(d as nat)],
{
    proof {
        reveal_strlit("0");
        reveal_strlit("1");
        reveal_strlit("2");
        reveal_strlit("3");
        reveal_strlit("4");
        reveal_strlit("5");
        reveal_strlit("6");
        reveal_strlit("7");
        reveal_strlit("8");
        reveal_strlit("9");
    }
    let r = if d == 0 {
        "0"
    } else if d == 1 {
        "1"
    } else if d == 2 {
        "2"
    } else if d == 3 {
        "3"
    } else if d == 4 {
        "4"
    } else if d == 5 {
        "5"
    } else if d == 6 {
        "6"
    } else if d == 7 {
        "7"
    } else if d == 8 {
        "8"
    } else {
        "9"
    };
    proof {
        assert(r@ =~= seq![digit_char(d as nat)]);
    }
    r
}

/// Renders a number in decimal, most significant digit first.
pub fn u64_text(n: u64) -> (r: String)
    ensures
        r@ == dec_text(n as nat),
    decreases n,
{
    let d = n % 10;
    if n < 10 {
        digit_str(d).to_owned()
    } else {
        let mut s = u64_text(n / 10);
        s.append(digit_str(d));
        proof {
            assert(s@ =~= dec_text(n as nat));
        }
        s
    }
}

impl Error {
    /// Renders the error as the message the service boundary returns: a
    /// validation failure names the rejected value and the allowed set, a
    /// not-found failure names the identifier and the record kind.
    pub fn message(&self) -> (r: String)
        ensures
            r@ == error_text(*self),
    {
        match self {
            Error::InvalidTimberType { given } => {
                let mut s = "Invalid timber type: ".to_owned();
                s.append(given.as_str());
                s.append(
                    ". Valid types are: [\"cyprus\", \"pine\", \"oak\", \"cedar\", \"spruce\"]",
                );
                s
            },
            Error::InvalidTimberSize { given } => {
                let mut s = "Invalid timber size: ".to_owned();
                s.append(given.as_str());
                s.append(
                    ". Valid sizes are: [\"2x4\", \"2x6\", \"2x8\", \"2x10\", \"3x2\", \"3x4\", \"4x2\", \"4x4\", \"4x6\", \"6x2\", \"6x4\", \"8x2\", \"8x4\", \"10x2\", \"10x4\"]",
                );
                s
            },
            Error::ZeroQuantity => "Quantity must be greater than zero".to_owned(),
            Error::ZeroPrice => "Price must be greater than zero".to_owned(),
            Error::TimberNotFound { id } => {
                let mut s = "Timber with id=".to_owned();
                let d = u64_text(*id);
                s.append(d.as_str());
                s.append(" not found");
                s
            },
            Error::SalesNotFound { id } => {
                let mut s = "Sales with id=".to_owned();
                let d = u64_text(*id);
                s.append(d.as_str());
                s.append(" not found");
                s
            },
        }
    }

    /// Renders the error as an update operation reports it.
    pub fn update_message(&self) -> (r: String)
        ensures
            r@ == update_error_text(*self),
    {
        match self {
            Error::TimberNotFound { id } => {
                let mut s = "Couldn't update timber with id=".to_owned();
                let d = u64_text(*id);
                s.append(d.as_str());
                s.append(". Timber not found");
                s
            },
            Error::SalesNotFound { id } => {
                let mut s = "Couldn't update sales with id=".to_owned();
                let d = u64_text(*id);
                s.append(d.as_str());
                s.append(". Sales not found");
                s
            },
            _ => self.message(),
        }
    }

    /// Renders the error as a delete operation reports it.
    pub fn delete_message(&self) -> (r: String)
        ensures
            r@ == delete_error_text(*self),
    {
        match self {
            Error::TimberNotFound { id } => {
                let mut s = "Couldn't delete timber with id=".to_owned();
                let d = u64_text(*id);
                s.append(d.as_str());
                s.append(". Timber not found");
                s
            },
            Error::SalesNotFound { id } => {
                let mut s = "Couldn't delete sales with id=".to_owned();
                let d = u64_text(*id);
                s.append(d.as_str());
                s.append(". Sales not found");
                s
            },
            _ => self.message(),
        }
    }
}

} // verus!
