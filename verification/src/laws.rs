//! What holds of the channel whatever the inputs are, stated over the spec
//! functions that the contracts use and proved from them.

use vstd::prelude::*;
use crate::channel::finalize::{payment_witness, refund_witness};
use crate::channel::payment::{payment_psbt, PaymentInfo};
use crate::channel::verify::{
    funding_error, lemma_checked_payment_is_bounded, payer_signature_verifies, payment_check,
    payment_verdict,
};
use crate::channel::{config_error, ChannelView};
use crate::error::{PaymentError, SpillError};
use crate::key::is_compressed_key;
use crate::psbt::{PartialSigView, PsbtInputView, PsbtView, SighashType};
use crate::script::{
    delay_in_blocks, delay_in_intervals, funding_script_bytes, is_zero_delay, p2wpkh_script,
    SEQUENCE_TIME_FLAG,
};
use crate::tx::{find_output, total_value, OutPoint, TransactionView};

verus! {

/// The funding script is a function of the two keys and the refund delay:
/// equal inputs give the same script, byte for byte.
pub proof fn funding_script_is_deterministic(
    payer: Seq<u8>,
    payee: Seq<u8>,
    refund_delay: u32,
    other_payer: Seq<u8>,
    other_payee: Seq<u8>,
    other_refund_delay: u32,
)
    requires
        payer == other_payer,
        payee == other_payee,
        refund_delay == other_refund_delay,
    ensures
        funding_script_bytes(payer, payee, refund_delay) == funding_script_bytes(
            other_payer,
            other_payee,
            other_refund_delay,
        ),
{
}

/// A configuration is refused where the capacity is zero, where a key is
/// not compressed, and where the refund delay is zero as a raw sequence
/// number, as a number of blocks or as a number of 512-second intervals;
/// it is accepted everywhere else.
pub proof fn configuration_is_refused_iff_invalid(
    payer: Seq<u8>,
    payee: Seq<u8>,
    capacity: u64,
    refund_delay: u32,
)
    ensures
        capacity == 0 ==> config_error(payer, payee, capacity, refund_delay) is Some,
        !is_compressed_key(payer) || !is_compressed_key(payee) ==> config_error(
            payer,
            payee,
            capacity,
            refund_delay,
        ) is Some,
        refund_delay == 0 || refund_delay == delay_in_blocks(0) || refund_delay
            == delay_in_intervals(0) ==> config_error(payer, payee, capacity, refund_delay) is Some,
        config_error(payer, payee, capacity, refund_delay) is None <==> capacity > 0
            && is_compressed_key(payer) && is_compressed_key(payee) && !is_zero_delay(refund_delay),
{
}

/// A refund delay is zero in one of its encodings exactly where it is the
/// number 0 or the time flag alone.
pub proof fn zero_delays(refund_delay: u32)
    ensures
        is_zero_delay(refund_delay) <==> refund_delay == 0 || refund_delay == SEQUENCE_TIME_FLAG,
{
    assert(0u32 | 0x0040_0000u32 == 0x0040_0000u32) by (bit_vector);
}

/// A funding transaction is accepted if and only if all four checks pass:
/// its id is the claimed one, the claimed output exists, its value is the
/// capacity, and its script is the expected one.
pub proof fn funding_is_accepted_iff_all_checks_pass(
    capacity: u64,
    expected_script: Seq<u8>,
    computed_txid: Seq<u8>,
    tx: TransactionView,
    outpoint: OutPoint,
)
    ensures
        funding_error(capacity, expected_script, computed_txid, tx, outpoint) is None <==> {
            &&& computed_txid == outpoint.txid@
            &&& outpoint.vout < tx.output.len()
            &&& tx.output[outpoint.vout as int].value == capacity
            &&& tx.output[outpoint.vout as int].script_pubkey == expected_script
        },
{
}

/// A well-formed payment is refused for its number of inputs exactly where
/// it has none or more than one.
pub proof fn payment_has_exactly_one_input(channel: ChannelView, psbt: PsbtView)
    requires
        psbt.wf(),
    ensures
        payment_verdict(channel, psbt) == Err::<PaymentInfo, SpillError>(
            SpillError::Payment(PaymentError::MultipleInputs),
        ) <==> psbt.unsigned_tx.input.len() > 1,
        payment_verdict(channel, psbt) == Err::<PaymentInfo, SpillError>(
            SpillError::Payment(PaymentError::MissingInput),
        ) <==> psbt.unsigned_tx.input.len() == 0,
{
}

/// A payment whose output for the payee does not exceed what was sent
/// before is rejected, whatever else it holds.
pub proof fn payment_that_does_not_increase_is_rejected(channel: ChannelView, psbt: PsbtView)
    requires
        find_output(psbt.unsigned_tx.output, p2wpkh_script(channel.params.payee)) matches Some(payment)
            && payment.value <= channel.sent,
    ensures
        payment_verdict(channel, psbt) is Err,
{
}

/// A payment whose outputs together exceed the capacity is rejected,
/// whatever else it holds.
pub proof fn payment_above_capacity_is_rejected(channel: ChannelView, psbt: PsbtView)
    requires
        total_value(psbt.unsigned_tx.output) > channel.params.capacity,
    ensures
        payment_verdict(channel, psbt) is Err,
{
}

/// A payment is accepted only with a signature of the payer that verifies
/// for the signature hash of the payment; one that passes every other
/// check and whose signature does not verify is rejected for that.
pub proof fn payment_stands_on_the_signature(channel: ChannelView, psbt: PsbtView)
    ensures
        payment_verdict(channel, psbt) is Ok ==> payer_signature_verifies(channel, psbt),
        payment_check(channel, psbt, p2wpkh_script(channel.params.payee)) is Ok ==> {
            if payer_signature_verifies(channel, psbt) {
                payment_verdict(channel, psbt) is Ok
            } else {
                payment_verdict(channel, psbt) == Err::<PaymentInfo, SpillError>(
                    SpillError::Payment(PaymentError::InvalidSignature),
                )
            }
        },
{
}

/// What an accepted payment amounts to: a total above what was sent before
/// and within the capacity; an increment that is the difference of the
/// two; a fee that is what the outputs leave of the capacity.
pub proof fn accepted_payment_is_bounded(channel: ChannelView, psbt: PsbtView)
    requires
        payment_verdict(channel, psbt) is Ok,
    ensures
        ({
            let info = payment_verdict(channel, psbt)->Ok_0;
            &&& channel.sent < info.total <= channel.params.capacity
            &&& info.total == channel.sent + info.current
            &&& info.fee + total_value(psbt.unsigned_tx.output) == channel.params.capacity
        }),
{
    lemma_checked_payment_is_bounded(channel, psbt, p2wpkh_script(channel.params.payee));
}

/// The payment that the constructor builds passes every check but the
/// signature checks, for the amount and the fee that it was built for.
pub proof fn built_payment_awaits_only_the_signature(channel: ChannelView, amount: u64, fee: u64)
    requires
        amount > 0,
        amount + channel.sent + fee <= channel.params.capacity,
    ensures
        payment_check(
            channel,
            payment_psbt(channel, amount, fee),
            p2wpkh_script(channel.params.payee),
        ) == Err::<PaymentInfo, PaymentError>(PaymentError::MissingSignature),
{
    let outputs = payment_psbt(channel, amount, fee).unsigned_tx.output;
    reveal_with_fuel(total_value, 3);
    assert(total_value(outputs) == channel.params.capacity - fee);
}

/// A payment as the constructor builds it, with a signature of the payer
/// that commits to all outputs, passes every check before the signature
/// verification, and amounts to what it was built for.
pub proof fn built_payment_with_signature_passes_the_checks(
    channel: ChannelView,
    amount: u64,
    fee: u64,
    signature: PartialSigView,
)
    requires
        amount > 0,
        amount + channel.sent + fee <= channel.params.capacity,
        signature.public_key == channel.params.payer,
        signature.sighash_type == SighashType::All,
    ensures
        ({
            let built = payment_psbt(channel, amount, fee);
            let signed = PsbtView {
                inputs: seq![PsbtInputView { partial_sigs: seq![signature], ..built.inputs[0] }],
                ..built
            };
            payment_check(channel, signed, p2wpkh_script(channel.params.payee)) == Ok::<
                PaymentInfo,
                PaymentError,
            >(
                PaymentInfo { total: (amount + channel.sent) as u64, current: amount, fee },
            )
        }),
{
    let outputs = payment_psbt(channel, amount, fee).unsigned_tx.output;
    reveal_with_fuel(total_value, 3);
    assert(total_value(outputs) == channel.params.capacity - fee);
}

/// The witness of the payment branch has exactly five items and ends in
/// the selector 1 and the script; that of the refund branch has exactly
/// three and ends in the selector 0 and the script.
pub proof fn witness_layouts(payer: PartialSigView, payee: PartialSigView, script: Seq<u8>)
    ensures
        payment_witness(payer, payee, script).len() == 5,
        payment_witness(payer, payee, script)[0].len() == 0,
        payment_witness(payer, payee, script)[3] == seq![1u8],
        payment_witness(payer, payee, script)[4] == script,
        refund_witness(payer, script).len() == 3,
        refund_witness(payer, script)[1] == seq![0u8],
        refund_witness(payer, script)[2] == script,
        payment_witness(payer, payee, script)[1] == refund_witness(payer, script)[0],
{
}

} // verus!
