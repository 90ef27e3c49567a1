use gemcore::currency::{
    currency_change_begin, currency_change_on_prices_converted, currency_change_on_saved,
    currency_change_on_synchronized, CurrencyChangeStep,
};
use gemcore::rewards_session::GemServiceError;

fn offline() -> GemServiceError {
    GemServiceError::Gateway { msg: "offline".to_string() }
}

#[test]
fn test_choosing_the_current_currency_changes_nothing() {
    assert_eq!(currency_change_begin(&"USD".to_string(), &"USD".to_string()), CurrencyChangeStep::Done { result: Ok(()) });
    assert_eq!(currency_change_begin(&"USD".to_string(), &"EUR".to_string()), CurrencyChangeStep::ConvertPrices);
}

#[test]
fn test_a_currency_without_a_rate_is_not_saved() {
    assert_eq!(currency_change_on_prices_converted(Err(offline())), CurrencyChangeStep::Done { result: Err(offline()) });
    assert_eq!(currency_change_on_prices_converted(Ok(())), CurrencyChangeStep::SaveCurrency);
}

#[test]
fn test_a_saved_currency_synchronizes_the_device_whatever_it_answers() {
    assert_eq!(currency_change_on_saved(Ok(())), CurrencyChangeStep::SynchronizeDevice);
    assert_eq!(currency_change_on_saved(Err(offline())), CurrencyChangeStep::Done { result: Err(offline()) });
    assert_eq!(currency_change_on_synchronized(Err(offline())), CurrencyChangeStep::Done { result: Ok(()) });
    assert_eq!(currency_change_on_synchronized(Ok(())), CurrencyChangeStep::Done { result: Ok(()) });
}
