//! The version query, the one packet of the simple dialect.

use vstd::prelude::*;
use crate::errors::{DecodeError, DeviceError};
use crate::v5::meta::VexProductType;

verus! {

/// What a device says of itself: the five numbers of its system version and
/// the product it is.
#[derive(Clone, Copy, Debug, PartialEq, Eq)]
pub struct V5DeviceVersion {
    pub system_version: (u8, u8, u8, u8, u8),
    pub product_type: VexProductType,
}

/// The number of bytes a version reply is read from.
pub const VERSION_REPLY_LEN: usize = 7;

impl V5DeviceVersion {
    /// What the seven bytes at the head of `payload` say: five version
    /// numbers, the product byte and the flag byte.
    pub open spec fn spec_decode(payload: Seq<u8>) -> Result<V5DeviceVersion, DeviceError> {
        if payload.len() < VERSION_REPLY_LEN {
            Err(DeviceError::Decode(DecodeError::UnexpectedEnd))
        } else {
            match VexProductType::spec_try_from(payload[5], payload[6]) {
                Ok(product_type) => Ok(
                    V5DeviceVersion {
                        system_version: (
                            payload[0],
                            payload[1],
                            payload[2],
                            payload[3],
                            payload[4],
                        ),
                        product_type,
                    },
                ),
                Err(e) => Err(e),
            }
        }
    }

    /// Reads a version reply.
    pub fn decode(payload: &[u8]) -> (r: Result<V5DeviceVersion, DeviceError>)
        ensures
            r == Self::spec_decode(payload@),
    {
        if payload.len() < VERSION_REPLY_LEN {
            return Err(DeviceError::Decode(DecodeError::UnexpectedEnd));
        }
        match VexProductType::try_from((payload[5], payload[6])) {
            Ok(product_type) => Ok(
                V5DeviceVersion {
                    system_version: (payload[0], payload[1], payload[2], payload[3], payload[4]),
                    product_type,
                },
            ),
            Err(e) => Err(e),
        }
    }

    /// The seven bytes that say `self`.
    pub open spec fn spec_encode(self) -> Seq<u8> {
        seq![
            self.system_version.0,
            self.system_version.1,
            self.system_version.2,
            self.system_version.3,
            self.system_version.4,
            self.product_type.spec_code(),
            self.product_type.spec_flag_bits(),
        ]
    }
}

/// A version whose flags all have a meaning reads back from its seven
/// bytes, whatever follows them.
pub proof fn lemma_version_round_trip(v: V5DeviceVersion, rest: Seq<u8>)
    requires
        v.product_type.spec_flag_bits() <= 3,
        v.product_type is V5Brain ==> v.product_type.spec_flag_bits() == 0,
    ensures
        V5DeviceVersion::spec_decode(v.spec_encode() + rest) == Ok::<V5DeviceVersion, DeviceError>(
            v,
        ),
{
}

} // verus!
