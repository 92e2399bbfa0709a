//! The payment target: a BOLT11 invoice that decodes and names an amount.

use vstd::prelude::*;
use ldk_node::lightning_invoice::{Bolt11Invoice, Bolt11InvoiceDescriptionRef};
use crate::liquidity::{checked_liquidity_requirement, requirement_of};
use crate::sweep::EXIT_INVALID_INPUT;

verus! {

/// What the payment logic reads of a decoded invoice.
#[derive(Clone, Debug, PartialEq, Eq)]
pub struct DecodedInvoice {
    /// The amount asked for, in millisatoshi, if the invoice names one.
    pub amount_msat: Option<u64>,
    /// The description, where the invoice carries the text itself rather than its hash.
    pub description: Option<String>,
}

/// Why a text is no payment target.
#[derive(Clone, Copy, Debug, PartialEq, Eq, Structural)]
pub enum TargetError {
    /// The text does not decode as a BOLT11 invoice.
    InvalidInvoice,
    /// The invoice names no amount.
    NoAmount,
}

/// A payment request that was decoded and found payable. It does not change.
#[derive(Clone, Debug, PartialEq, Eq)]
pub struct PaymentTarget {
    invoice: String,
    amount_msat: u64,
    description: Option<String>,
}

/// What decoding `text` as a BOLT11 invoice gives: `None` where it does not
/// decode, else the amount in millisatoshi and the direct description, each
/// if the invoice has one.
pub uninterp spec fn bolt11_decoded(text: Seq<char>) -> Option<(Option<u64>, Option<Seq<char>>)>;

/// A description as a sequence of characters.
pub open spec fn description_view(description: Option<String>) -> Option<Seq<char>> {
    match description {
        Some(d) => Some(d@),
        None => None,
    }
}

/// A decoding result as plain values.
pub open spec fn decoded_view(decoded: Option<DecodedInvoice>) -> Option<
    (Option<u64>, Option<Seq<char>>),
> {
    match decoded {
        Some(d) => Some((d.amount_msat, description_view(d.description))),
        None => None,
    }
}

/// The target, or the error, that a text and its decoding give.
pub open spec fn target_of(
    text: Seq<char>,
    decoded: Option<(Option<u64>, Option<Seq<char>>)>,
) -> Result<(Seq<char>, u64, Option<Seq<char>>), TargetError> {
    match decoded {
        None => Err(TargetError::InvalidInvoice),
        Some((None, _)) => Err(TargetError::NoAmount),
        Some((Some(amount), description)) => Ok((text, amount, description)),
    }
}

/// A result of building a target, as plain values.
pub open spec fn target_result_view(r: Result<PaymentTarget, TargetError>) -> Result<
    (Seq<char>, u64, Option<Seq<char>>),
    TargetError,
> {
    match r {
        Ok(t) => Ok(t@),
        Err(e) => Err(e),
    }
}

/// Decodes `text` with `Bolt11Invoice::from_str` of lightning-invoice, which
/// checks the encoding, the field counts, the feature bits, the signature and
/// the amount's precision, and reads the result with `amount_milli_satoshis`
/// and `description`. Trusted: the result is a function of the text alone,
/// here called `bolt11_decoded`.
#[verifier::external_body]
fn decode_invoice(text: &str) -> (decoded: Option<DecodedInvoice>)
    ensures
        decoded_view(decoded) == bolt11_decoded(text@),
{
    match text.parse::<Bolt11Invoice>() {
        Err(_) => None,
        Ok(invoice) => Some(DecodedInvoice {
            amount_msat: invoice.amount_milli_satoshis(),
            description: match invoice.description() {
                Bolt11InvoiceDescriptionRef::Direct(d) => Some(d.as_inner().0.clone()),
                Bolt11InvoiceDescriptionRef::Hash(_) => None,
            },
        }),
    }
}

impl View for PaymentTarget {
    type V = (Seq<char>, u64, Option<Seq<char>>);

    /// The invoice text, the amount in millisatoshi, the description.
    closed spec fn view(&self) -> Self::V {
        (self.invoice@, self.amount_msat, description_view(self.description))
    }
}

impl TargetError {
    /// The process exit code for this error: invalid input, either way.
    pub fn exit_code(&self) -> (code: u8)
        ensures
            code == EXIT_INVALID_INPUT,
    {
        EXIT_INVALID_INPUT
    }
}

impl PaymentTarget {
    /// Builds the target from an invoice text and what decoding it gave. A
    /// text that did not decode is rejected as invalid, an invoice without
    /// an amount as such; any other becomes a target with that amount.
    pub fn from_decoded(invoice: String, decoded: Option<DecodedInvoice>) -> (r: Result<
        PaymentTarget,
        TargetError,
    >)
        ensures
            target_result_view(r) == target_of(invoice@, decoded_view(decoded)),
    {
        match decoded {
            None => Err(TargetError::InvalidInvoice),
            Some(d) => match d.amount_msat {
                None => Err(TargetError::NoAmount),
                Some(amount_msat) => Ok(
                    PaymentTarget { invoice, amount_msat, description: d.description },
                ),
            },
        }
    }

    /// Decodes an invoice text into a target. Fails on a text that is no
    /// valid invoice, and on an invoice that names no amount.
    pub fn parse(text: &str) -> (r: Result<PaymentTarget, TargetError>)
        ensures
            target_result_view(r) == target_of(text@, bolt11_decoded(text@)),
    {
        let decoded = decode_invoice(text);
        PaymentTarget::from_decoded(text.to_owned(), decoded)
    }

    /// The invoice as it was given.
    pub fn invoice(&self) -> (text: &String)
        ensures
            text@ == self@.0,
    {
        &self.invoice
    }

    /// The amount to pay, in millisatoshi.
    pub fn amount_msat(&self) -> (amount: u64)
        ensures
            amount == self@.1,
    {
        self.amount_msat
    }

    /// The invoice's description, if it carries one as text.
    pub fn description(&self) -> (description: &Option<String>)
        ensures
            description_view(*description) == self@.2,
    {
        &self.description
    }

    /// The outbound liquidity to wait for before this target is
    /// paid: the amount, two percent of it, and the fixed headroom. `None`
    /// exactly where that does not fit in a `u64`.
    pub fn requirement(&self) -> (need_msat: Option<u64>)
        ensures
            need_msat is Some <==> requirement_of(self@.1 as nat) <= u64::MAX,
            need_msat matches Some(n) ==> n as nat == requirement_of(self@.1 as nat) && n
                >= self@.1,
    {
        checked_liquidity_requirement(self.amount_msat)
    }
}

} // verus!
