//! Validation of the payload handed to the loop's entry point: the
//! stored or supplied API key must be exactly 32 bytes long.

use vstd::prelude::*;

use crate::model::API_KEY_LEN;

verus! {

/// Why a supplied API key was rejected: its byte length was not the
/// expected one.
#[derive(Debug, Copy, Clone, PartialEq, Eq, Structural)]
pub enum ConfigError {
    WrongLength { expected: usize, found: usize },
}

/// Check that `bytes` is exactly 32 bytes long and, if so, return it
/// as the fixed-size payload array; otherwise report the expected and
/// the found length.
pub fn validate_api_key(bytes: &Vec<u8>) -> (r: Result<[u8; API_KEY_LEN], ConfigError>)
    ensures
        bytes@.len() == API_KEY_LEN ==> (r matches Ok(key) && key@ == bytes@),
        bytes@.len() != API_KEY_LEN ==> r == Err::<[u8; API_KEY_LEN], ConfigError>(
            ConfigError::WrongLength { expected: API_KEY_LEN, found: bytes@.len() as usize },
        ),
{
    if bytes.len() == API_KEY_LEN {
        let mut key: [u8; API_KEY_LEN] = [0u8; API_KEY_LEN];
        let mut i: usize = 0;
        while i < API_KEY_LEN
            invariant
                i <= API_KEY_LEN,
                bytes@.len() == API_KEY_LEN,
                forall|j: int| 0 <= j < i ==> key@[j] == bytes@[j],
            decreases API_KEY_LEN - i,
        {
            key[i] = bytes[i];
            i = i + 1;
        }
        proof {
            assert(key@ =~= bytes@);
        }
        Ok(key)
    } else {
        Err(ConfigError::WrongLength { expected: API_KEY_LEN, found: bytes.len() })
    }
}

} // verus!
