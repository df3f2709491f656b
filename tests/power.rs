use aoi_backend::error::GameError;
use aoi_backend::power::{abort_conversion, finish_conversion, start_conversion, PowerBowls};
use aoi_backend::resources::{Books, Coins, Scholars, Tools};

#[test]
fn power_gain_power_from_multiple_bowls() {
    let mut bowls = PowerBowls::new(3, 9, 0);

    bowls.gain(5);

    assert_eq!(bowls.amount(3), 2);
    assert_eq!(bowls.amount(2), 10);
    assert_eq!(bowls.amount(1), 0);
    assert_eq!(bowls.gain_limit(), 10);
}

#[test]
#[should_panic]
fn power_panic_when_getting_power_out_of_bounds() {
    let bowls = PowerBowls::new(0, 0, 0);

    bowls.amount(0);
}

#[test]
fn power_gain_from_only_bowl2() {
    let mut bowls = PowerBowls::new(0, 7, 2);

    bowls.gain(3);

    assert_eq!(bowls.amount(3), 5);
    assert_eq!(bowls.amount(2), 4);
    assert_eq!(bowls.amount(1), 0);
    assert_eq!(bowls.gain_limit(), 4);
}

#[test]
fn power_gain_from_only_bowl1() {
    let mut bowls = PowerBowls::new(9, 1, 2);

    bowls.gain(3);

    assert_eq!(bowls.amount(3), 2);
    assert_eq!(bowls.amount(2), 4);
    assert_eq!(bowls.amount(1), 6);
    assert_eq!(bowls.gain_limit(), 16);
}

#[test]
fn power_gain_result_when_not_capped() {
    let mut bowls = PowerBowls::new(9, 1, 2);

    let amount_gained = bowls.gain(3);

    assert_eq!(amount_gained, 3);
}

#[test]
fn power_gain_result_when_capped() {
    let mut bowls = PowerBowls::new(1, 0, 2);

    let amount_gained = bowls.gain(3);

    assert_eq!(amount_gained, 2);
}

#[test]
fn power_burn_power() {
    let mut bowls = PowerBowls::new(4, 4, 4);

    bowls.burn(2).unwrap();

    assert_eq!(bowls.amount(3), 6);
    assert_eq!(bowls.amount(2), 0);
    assert_eq!(bowls.amount(1), 4);
}

#[test]
fn burn_power_in_conversion() {
    let bowls = PowerBowls::new(4, 4, 4);
    let mut conv = start_conversion(bowls);

    conv.burn_power(2).unwrap();
    let (bowls, _, _, _, _) = finish_conversion(conv);

    assert_eq!(bowls.amount(3), 6);
    assert_eq!(bowls.amount(2), 0);
    assert_eq!(bowls.amount(1), 4);
}

#[test]
fn power_try_burning_more_power_than_possible() {
    let mut bowls = PowerBowls::new(3, 7, 2);

    assert!(bowls.burn(4).is_err());
}

#[test]
fn try_burning_more_power_than_possible_in_conversion() {
    let bowls = PowerBowls::new(3, 7, 2);
    let mut conv = start_conversion(bowls);

    assert_eq!(conv.burn_power(4), Err(GameError::InsufficientPower));
    let (bowls, _, _, _, _) = finish_conversion(conv);
    assert_eq!((bowls.amount(1), bowls.amount(2), bowls.amount(3)), (3, 7, 2));
}

#[test]
fn power_spend_power() {
    let mut bowls = PowerBowls::new(4, 4, 4);

    bowls.spend(3).unwrap();

    assert_eq!(bowls.amount(3), 1);
    assert_eq!(bowls.amount(2), 4);
    assert_eq!(bowls.amount(1), 7);
}

#[test]
fn power_spend_while_not_having_enough_power() {
    let mut bowls = PowerBowls::new(4, 4, 4);

    assert!(bowls.spend(5).is_err());

    assert_eq!(bowls.amount(3), 4);
    assert_eq!(bowls.amount(2), 4);
    assert_eq!(bowls.amount(1), 4);
}

#[test]
fn spend_error_is_insufficient_power() {
    let mut bowls = PowerBowls::new(4, 4, 4);

    assert_eq!(bowls.spend(5), Err(GameError::InsufficientPower));
}

#[test]
fn conversion_of_resources() {
    let bowls = PowerBowls::new(0, 5, 25);
    let mut conv = start_conversion(bowls);

    conv.convert_to_coins(Coins(1)).unwrap(); // 1 power
    conv.convert_to_books(Books(2)).unwrap(); // 10 power
    conv.convert_to_tools(Tools(2)).unwrap(); // 6 power
    conv.convert_to_coins(Coins(2)).unwrap(); // 2 power
    conv.convert_to_scholars(Scholars(1)).unwrap(); // 5 power
    let (bowls, books, scholars, tools, coins) = finish_conversion(conv);

    assert_eq!(bowls.amount(3), 1);
    assert_eq!(bowls.amount(2), 5);
    assert_eq!(bowls.amount(1), 24);
    assert_eq!(books.0, 2);
    assert_eq!(scholars.0, 1);
    assert_eq!(tools.0, 2);
    assert_eq!(coins.0, 3);
}

#[test]
fn conversion_aborted_restores_bowls() {
    let bowls = PowerBowls::new(0, 5, 25);
    let mut conv = start_conversion(bowls);

    conv.convert_to_coins(Coins(1)).unwrap();
    conv.convert_to_books(Books(2)).unwrap();
    conv.convert_to_tools(Tools(2)).unwrap();
    conv.convert_to_coins(Coins(2)).unwrap();
    conv.convert_to_scholars(Scholars(1)).unwrap();
    let bowls = abort_conversion(conv);

    assert_eq!((bowls.amount(1), bowls.amount(2), bowls.amount(3)), (0, 5, 25));
}

#[test]
fn failed_conversion_keeps_earlier_steps() {
    let bowls = PowerBowls::new(0, 0, 7);
    let mut conv = start_conversion(bowls);

    conv.convert_to_tools(Tools(2)).unwrap(); // 6 power
    assert_eq!(conv.convert_to_books(Books(1)), Err(GameError::InsufficientPower));
    assert_eq!(conv.convert_to_scholars(Scholars(1)), Err(GameError::InsufficientPower));
    conv.convert_to_coins(Coins(1)).unwrap();
    let (bowls, books, scholars, tools, coins) = finish_conversion(conv);

    assert_eq!((bowls.amount(1), bowls.amount(2), bowls.amount(3)), (7, 0, 0));
    assert_eq!((books.0, scholars.0, tools.0, coins.0), (0, 0, 2, 1));
}

#[test]
fn burn_and_convert_power() {
    let bowls = PowerBowls::new(0, 5, 1);
    let mut conv = start_conversion(bowls);

    conv.burn_power(2).unwrap();
    conv.convert_to_tools(Tools(1)).unwrap();
    let (bowls, books, scholars, tools, coins) = finish_conversion(conv);

    assert_eq!(bowls.amount(3), 0);
    assert_eq!(bowls.amount(2), 1);
    assert_eq!(bowls.amount(1), 3);
    assert_eq!(books.0, 0);
    assert_eq!(scholars.0, 0);
    assert_eq!(tools.0, 1);
    assert_eq!(coins.0, 0);
}

#[test]
fn gain_zero_changes_nothing() {
    let mut bowls = PowerBowls::new(2, 3, 4);

    assert_eq!(bowls.gain(0), 0);
    assert_eq!((bowls.amount(1), bowls.amount(2), bowls.amount(3)), (2, 3, 4));
}

#[test]
fn gain_never_lowers_upper_bowls() {
    for a in 0..20 {
        let mut bowls = PowerBowls::new(3, 4, 1);
        bowls.gain(a);
        assert!(bowls.amount(2) + bowls.amount(3) >= 5);
        assert_eq!(bowls.amount(1) + bowls.amount(2) + bowls.amount(3), 8);
    }
}

#[test]
fn gain_limit_is_exact_boundary() {
    let bowls = PowerBowls::new(3, 4, 1);
    let limit = bowls.gain_limit();
    assert_eq!(limit, 10);

    let mut at_limit = bowls;
    assert_eq!(at_limit.gain(limit), limit);
    assert_eq!((at_limit.amount(1), at_limit.amount(2), at_limit.amount(3)), (0, 0, 8));

    let mut over_limit = bowls;
    assert_eq!(over_limit.gain(limit + 1), limit);
}

#[test]
fn spend_conserves_tokens() {
    let mut bowls = PowerBowls::new(1, 2, 6);

    bowls.spend(4).unwrap();

    assert_eq!((bowls.amount(1), bowls.amount(2), bowls.amount(3)), (5, 2, 2));
}
