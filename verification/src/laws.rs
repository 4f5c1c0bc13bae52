//! Laws relating the type mapping, the marshalling policies, and the
//! facade's boundary conversions.

use vstd::prelude::*;
use crate::descriptor::TypeDesc;
use crate::mapper::{host_of, policy_of, transfer_of, HostType, Policy};
use crate::service_gen::{arg_conv_of, ret_conv_of, ArgConv, RetConv};

verus! {

/// A boolean argument always crosses the native-call boundary as an int:
/// its policy in argument position is `BooleanAsInt` and its facade
/// conversion is the `1`/`0` local — while as a field or return value it
/// stays a plain boolean.
pub proof fn lemma_boolean_crosses_as_int(t: TypeDesc)
    requires
        t is Boolean,
    ensures
        policy_of(t, true) == Policy::BooleanAsInt,
        arg_conv_of(t) == ArgConv::BoolToInt,
        policy_of(t, false) == Policy::Direct,
{
}

/// The facade's argument conversion follows the mapper's policy: booleans
/// become ints, raw byte arrays and direct values pass through, boxed
/// lists and struct arrays are encoded to interchange text, and a callback
/// (whose policy is direct — the reference itself is not reshaped) is
/// registered and crosses as its fresh identifier.
pub proof fn lemma_arg_conv_follows_policy(t: TypeDesc)
    ensures
        policy_of(t, true) == Policy::BooleanAsInt ==> arg_conv_of(t) == ArgConv::BoolToInt,
        policy_of(t, true) == Policy::RawBytes ==> arg_conv_of(t) == ArgConv::Direct,
        policy_of(t, true) == Policy::BoxedListViaText ==> arg_conv_of(t)
            == ArgConv::EncodeText,
        policy_of(t, true) == Policy::StructArray ==> arg_conv_of(t) == ArgConv::EncodeText,
        policy_of(t, true) == Policy::Direct ==> arg_conv_of(t) == (if t is Callback {
            ArgConv::RegisterCallback
        } else {
            ArgConv::Direct
        }),
{
}

/// The facade's return conversion follows the mapper's policy: nothing
/// for void, a decode for boxed lists, and the captured native result
/// unchanged for everything else — raw byte arrays and struct arrays
/// included, whose declared host type already matches.
pub proof fn lemma_ret_conv_follows_policy(t: TypeDesc)
    ensures
        t is Void ==> ret_conv_of(t) == RetConv::Nothing,
        !(t is Void) && policy_of(t, false) == Policy::BoxedListViaText ==> ret_conv_of(t)
            == RetConv::DecodeText,
        !(t is Void) && policy_of(t, false) != Policy::BoxedListViaText ==> ret_conv_of(t)
            == RetConv::Direct,
{
}

/// The boundary transfer type agrees with the facade's argument
/// conversion: an int local for booleans, a long identifier local for
/// callbacks, a text local for encoded lists, and the mapped host type
/// wherever the argument passes through unchanged.
pub proof fn lemma_transfer_follows_conversion(t: TypeDesc)
    ensures
        arg_conv_of(t) == ArgConv::BoolToInt ==> transfer_of(t) == HostType::Int,
        arg_conv_of(t) == ArgConv::RegisterCallback ==> transfer_of(t) == HostType::Long,
        arg_conv_of(t) == ArgConv::EncodeText ==> transfer_of(t) == HostType::Text,
        arg_conv_of(t) == ArgConv::Direct ==> transfer_of(t) == host_of(t),
{
}

} // verus!
