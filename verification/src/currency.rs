use vstd::prelude::*;

use crate::rewards_session::GemServiceError;

verus! {

/// The next step of a change of the display currency: its outcome, or the
/// work to do before it can go on.
#[derive(Debug, PartialEq, Eq)]
pub enum CurrencyChangeStep {
    /// The change is over.
    Done { result: Result<(), GemServiceError> },
    /// Convert the stored prices into the requested currency.
    ConvertPrices,
    /// Save the requested currency as the user's choice.
    SaveCurrency,
    /// Let the device registration carry the new currency; its outcome does not matter.
    SynchronizeDevice,
}

/// Starts changing the currency from `current` to `requested`: choosing the
/// currency already in use changes nothing.
pub fn currency_change_begin(current: &String, requested: &String) -> (step: CurrencyChangeStep)
    ensures
        step == if current@ == requested@ {
            CurrencyChangeStep::Done { result: Ok(()) }
        } else {
            CurrencyChangeStep::ConvertPrices
        },
{
    if *current == *requested {
        CurrencyChangeStep::Done { result: Ok(()) }
    } else {
        CurrencyChangeStep::ConvertPrices
    }
}

/// Goes on once the prices were converted: a failure ends the change with it,
/// before the currency is saved, so the previous one stays.
pub fn currency_change_on_prices_converted(result: Result<(), GemServiceError>) -> (step: CurrencyChangeStep)
    ensures
        step == match result {
            Ok(()) => CurrencyChangeStep::SaveCurrency,
            Err(e) => CurrencyChangeStep::Done { result: Err(e) },
        },
{
    match result {
        Ok(()) => CurrencyChangeStep::SaveCurrency,
        Err(e) => CurrencyChangeStep::Done { result: Err(e) },
    }
}

/// Goes on once the currency was saved: a failure ends the change with it.
pub fn currency_change_on_saved(result: Result<(), GemServiceError>) -> (step: CurrencyChangeStep)
    ensures
        step == match result {
            Ok(()) => CurrencyChangeStep::SynchronizeDevice,
            Err(e) => CurrencyChangeStep::Done { result: Err(e) },
        },
{
    match result {
        Ok(()) => CurrencyChangeStep::SynchronizeDevice,
        Err(e) => CurrencyChangeStep::Done { result: Err(e) },
    }
}

/// Ends the change once the device was synchronized, whether that worked or not.
pub fn currency_change_on_synchronized(_outcome: Result<(), GemServiceError>) -> (step: CurrencyChangeStep)
    ensures
        step == (CurrencyChangeStep::Done { result: Ok(()) }),
{
    CurrencyChangeStep::Done { result: Ok(()) }
}

} // verus!
