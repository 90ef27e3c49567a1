use vstd::prelude::*;

verus! {

/// One way to apply a provider's update to a stored fiat transaction. The
/// attempts are tried in order until one finds its row; the last attempt
/// fails with "not found" when there is no transaction for the quote.
#[derive(Debug, Clone, PartialEq, Eq)]
pub enum FiatUpdateAttempt {
    /// Update the transaction the provider knows by this identifier.
    UpdateByProviderTransactionId { provider_transaction_id: String },
    /// Update the transaction of this quote that has no provider identifier
    /// yet, and give it `provider_transaction_id`.
    UpdateByQuoteId { quote_id: String, provider_transaction_id: String },
    /// Copy the latest transaction of this quote into a new one that carries
    /// `provider_transaction_id` and the update.
    InsertFromQuote { quote_id: String, provider_transaction_id: String },
    /// Update the latest transaction of this quote.
    UpdateLatestOfQuote { quote_id: String },
}

/// An attempt with its identifiers taken as texts.
pub ghost enum AttemptView {
    ByProviderTransactionId(Seq<char>),
    ByQuoteId(Seq<char>, Seq<char>),
    InsertFromQuote(Seq<char>, Seq<char>),
    LatestOfQuote(Seq<char>),
}

/// The attempts, in order, to apply an update that names `transaction_id`
/// (a provider identifier or a quote) and maybe the provider's own
/// identifier: first as a provider identifier; with a provider identifier,
/// then by it, then by quote, then as a new row of the quote; without one,
/// the latest transaction of the quote.
pub open spec fn fiat_update_attempts_spec(
    transaction_id: Seq<char>,
    provider_transaction_id: Option<Seq<char>>,
) -> Seq<AttemptView> {
    match provider_transaction_id {
        Some(p) => seq![
            AttemptView::ByProviderTransactionId(transaction_id),
            AttemptView::ByProviderTransactionId(p),
            AttemptView::ByQuoteId(transaction_id, p),
            AttemptView::InsertFromQuote(transaction_id, p),
        ],
        None => seq![AttemptView::ByProviderTransactionId(transaction_id), AttemptView::LatestOfQuote(transaction_id)],
    }
}

/// An attempt with its identifiers taken as texts.
pub open spec fn attempt_view(a: FiatUpdateAttempt) -> AttemptView {
    match a {
        FiatUpdateAttempt::UpdateByProviderTransactionId { provider_transaction_id } => AttemptView::ByProviderTransactionId(
            provider_transaction_id@,
        ),
        FiatUpdateAttempt::UpdateByQuoteId { quote_id, provider_transaction_id } => AttemptView::ByQuoteId(
            quote_id@,
            provider_transaction_id@,
        ),
        FiatUpdateAttempt::InsertFromQuote { quote_id, provider_transaction_id } => AttemptView::InsertFromQuote(
            quote_id@,
            provider_transaction_id@,
        ),
        FiatUpdateAttempt::UpdateLatestOfQuote { quote_id } => AttemptView::LatestOfQuote(quote_id@),
    }
}

/// The attempts, in order, to apply a provider's update to a stored fiat transaction.
pub fn fiat_update_attempts(transaction_id: &String, provider_transaction_id: &Option<String>) -> (attempts: Vec<FiatUpdateAttempt>)
    ensures
        attempts@.map_values(|a: FiatUpdateAttempt| attempt_view(a)) == fiat_update_attempts_spec(
            transaction_id@,
            match provider_transaction_id {
                Some(p) => Some(p@),
                None => None,
            },
        ),
{
    let mut attempts = Vec::new();
    attempts.push(FiatUpdateAttempt::UpdateByProviderTransactionId { provider_transaction_id: transaction_id.clone() });
    match provider_transaction_id {
        Some(p) => {
            attempts.push(FiatUpdateAttempt::UpdateByProviderTransactionId { provider_transaction_id: p.clone() });
            attempts.push(FiatUpdateAttempt::UpdateByQuoteId { quote_id: transaction_id.clone(), provider_transaction_id: p.clone() });
            attempts.push(FiatUpdateAttempt::InsertFromQuote { quote_id: transaction_id.clone(), provider_transaction_id: p.clone() });
        },
        None => {
            attempts.push(FiatUpdateAttempt::UpdateLatestOfQuote { quote_id: transaction_id.clone() });
        },
    }
    assert(attempts@.map_values(|a: FiatUpdateAttempt| attempt_view(a)) =~= fiat_update_attempts_spec(
        transaction_id@,
        match provider_transaction_id {
            Some(p) => Some(p@),
            None => None,
        },
    ));
    attempts
}

} // verus!
