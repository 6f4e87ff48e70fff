//! The trivial round-trip check: the fixed probe payload sent through the
//! tunnel, and the validation of what came out the far side. A mismatch is
//! fatal to the whole run — a tunnel that corrupts plain bytes is beyond
//! further testing.

use vstd::prelude::*;

verus! {

/// The probe payload, as bytes: `Hello`.
pub open spec fn spec_hello() -> Seq<u8> {
    seq![72u8, 101u8, 108u8, 108u8, 111u8]
}

/// Why a received payload was rejected.
#[derive(Clone, Copy, Debug, PartialEq, Eq, Structural)]
pub enum PayloadError {
    /// Nothing arrived before end-of-stream.
    EmptyPayload,
    /// Bytes arrived but differ from the probe payload.
    Mismatched,
}

impl PayloadError {
    /// The human-readable account of the rejection.
    pub fn message(&self) -> (r: String)
        ensures
            (*self == PayloadError::EmptyPayload ==> r@
                == "Empty string received from the forwarder"@),
            (*self == PayloadError::Mismatched ==> r@
                == "String mismatch after passing through the forwarder"@),
    {
        match self {
            PayloadError::EmptyPayload => String::from_str(
                "Empty string received from the forwarder",
            ),
            PayloadError::Mismatched => String::from_str(
                "String mismatch after passing through the forwarder",
            ),
        }
    }
}

/// The probe payload to send through the tunnel.
pub fn hello_payload() -> (r: Vec<u8>)
    ensures
        r@ == spec_hello(),
{
    let mut v: Vec<u8> = Vec::new();
    v.push(72);
    v.push(101);
    v.push(108);
    v.push(108);
    v.push(111);
    proof {
        assert(v@ =~= spec_hello());
    }
    v
}

/// Validates what came out of the tunnel: accepted exactly when it is the
/// probe payload, verbatim; rejected as empty when nothing arrived, and as
/// mismatched otherwise.
pub fn check_payload(v: &Vec<u8>) -> (r: Result<(), PayloadError>)
    ensures
        (r is Ok <==> v@ == spec_hello()),
        (r == Result::<(), PayloadError>::Err(PayloadError::EmptyPayload) <==> v@.len() == 0),
        (r == Result::<(), PayloadError>::Err(PayloadError::Mismatched) <==> v@.len() > 0 && v@
            != spec_hello()),
{
    if v.len() == 0 {
        proof {
            assert(v@ != spec_hello());
        }
        return Err(PayloadError::EmptyPayload);
    }
    if v.len() == 5 && v[0] == 72 && v[1] == 101 && v[2] == 108 && v[3] == 108 && v[4] == 111 {
        proof {
            assert(v@ =~= spec_hello());
        }
        Ok(())
    } else {
        proof {
            assert(v@ != spec_hello());
        }
        Err(PayloadError::Mismatched)
    }
}

} // verus!
