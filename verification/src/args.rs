//! Command arguments and the rules that decide which combinations are
//! usable for each query kind.

use vstd::prelude::*;

use crate::strops::str_eq;

verus! {

/// The parsed command arguments. Argument collection itself is left to
/// the surrounding program; this type holds the plain values it yields.
pub struct Args {
    /// Ledger selector: single sequence, range, or relative count.
    pub ledger: Option<String>,
    /// Query kind: all, transactions, address, contract, function or balance.
    pub query: String,
    /// Address or contract address to filter by.
    pub address: Option<String>,
    /// Function name to filter by.
    pub name: Option<String>,
    /// Token contract address or shortcut.
    pub token: Option<String>,
    /// Whether to run as a server instead of a one-shot query.
    pub server: bool,
    /// Server port.
    pub port: u16,
}

/// Why a set of arguments was rejected.
#[derive(Debug, PartialEq, Eq, Structural)]
pub enum ArgsError {
    MissingAddress,
    MissingLedger,
    MissingName,
    MissingToken,
    UnsupportedQuery,
}

/// Which arguments each query kind requires.
pub open spec fn validate_spec(a: Args) -> Result<(), ArgsError> {
    if a.server {
        Ok(())
    } else if a.query@ == "address"@ || a.query@ == "contract"@ {
        if a.address is None {
            Err(ArgsError::MissingAddress)
        } else if a.ledger is None {
            Err(ArgsError::MissingLedger)
        } else {
            Ok(())
        }
    } else if a.query@ == "function"@ {
        if a.name is None {
            Err(ArgsError::MissingName)
        } else if a.ledger is None {
            Err(ArgsError::MissingLedger)
        } else {
            Ok(())
        }
    } else if a.query@ == "balance"@ {
        if a.address is None {
            Err(ArgsError::MissingAddress)
        } else if a.token is None {
            Err(ArgsError::MissingToken)
        } else {
            Ok(())
        }
    } else if a.query@ == "all"@ || a.query@ == "transactions"@ {
        if a.ledger is None {
            Err(ArgsError::MissingLedger)
        } else {
            Ok(())
        }
    } else {
        Err(ArgsError::UnsupportedQuery)
    }
}

/// The diagnostic text for a rejection, given the query kind it arose under.
pub open spec fn args_error_message(e: ArgsError, query: Seq<char>) -> Seq<char> {
    match e {
        ArgsError::MissingAddress => "--address is required when using --query "@ + query,
        ArgsError::MissingLedger => "--ledger is required when using --query "@ + query,
        ArgsError::MissingName => "--name is required when using --query function"@,
        ArgsError::MissingToken => "--token is required when using --query balance"@,
        ArgsError::UnsupportedQuery => "Unsupported query type: "@ + query
            + ". Use 'all', 'transactions', 'address', 'contract', 'function', or 'balance'"@,
    }
}

impl ArgsError {
    /// Renders the rejection as text.
    pub fn describe(&self, query: &str) -> (r: String)
        ensures
            r@ == args_error_message(*self, query@),
    {
        match self {
            ArgsError::MissingAddress => {
                let mut m = "--address is required when using --query ".to_owned();
                m.append(query);
                m
            },
            ArgsError::MissingLedger => {
                let mut m = "--ledger is required when using --query ".to_owned();
                m.append(query);
                m
            },
            ArgsError::MissingName => "--name is required when using --query function".to_owned(),
            ArgsError::MissingToken => "--token is required when using --query balance".to_owned(),
            ArgsError::UnsupportedQuery => {
                let mut m = "Unsupported query type: ".to_owned();
                m.append(query);
                m.append(
                    ". Use 'all', 'transactions', 'address', 'contract', 'function', or 'balance'",
                );
                m
            },
        }
    }
}

impl Args {
    /// Checks the argument combination for the selected query kind, as
    /// `validate_spec` states: in server mode anything passes; otherwise
    /// each query kind demands its inputs and unknown kinds are rejected.
    pub fn validate(&self) -> (r: Result<(), ArgsError>)
        ensures
            r == validate_spec(*self),
    {
        if self.server {
            return Ok(());
        }
        let q = self.query.as_str();
        if str_eq(q, "address") || str_eq(q, "contract") {
            if self.address.is_none() {
                Err(ArgsError::MissingAddress)
            } else if self.ledger.is_none() {
                Err(ArgsError::MissingLedger)
            } else {
                Ok(())
            }
        } else if str_eq(q, "function") {
            if self.name.is_none() {
                Err(ArgsError::MissingName)
            } else if self.ledger.is_none() {
                Err(ArgsError::MissingLedger)
            } else {
                Ok(())
            }
        } else if str_eq(q, "balance") {
            if self.address.is_none() {
                Err(ArgsError::MissingAddress)
            } else if self.token.is_none() {
                Err(ArgsError::MissingToken)
            } else {
                Ok(())
            }
        } else if str_eq(q, "all") || str_eq(q, "transactions") {
            if self.ledger.is_none() {
                Err(ArgsError::MissingLedger)
            } else {
                Ok(())
            }
        } else {
            Err(ArgsError::UnsupportedQuery)
        }
    }
}

} // verus!
