//! The service layer: turns each operation outcome into the status
//! flag and display string the request-serving front end reports back.

use vstd::prelude::*;

verus! {

use crate::errors::SecureContainerErr;
use crate::errors::message_spec;
use crate::text::str_eq;

/// The container service: one instance serves every request.
#[derive(Debug)]
pub struct MySecureContainer {}

impl MySecureContainer {
    /// A fresh service instance.
    pub fn new() -> MySecureContainer {
        MySecureContainer {  }
    }

    /// The response owed for an operation outcome: the display string
    /// of its error, or `"OK"`, with the status flag set exactly when
    /// the message is `"OK"`.
    pub fn respond(&self, result: Result<(), SecureContainerErr>) -> (r: (bool, String))
        ensures
            r.1@ == (match result {
                Ok(()) => "OK"@,
                Err(e) => message_spec(e),
            }),
            r.0 == (r.1@ == "OK"@),
    {
        match result {
            Ok(()) => {
                let msg = "OK".to_owned();
                proof {
                    assert(msg@ == "OK"@);
                }
                (true, msg)
            },
            Err(e) => {
                let msg = e.message();
                let status = str_eq(msg.as_str(), "OK");
                (status, msg)
            },
        }
    }
}

} // verus!
