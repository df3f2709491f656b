use aoi_backend::resources::{Books, Coins, Power, Resource, Resources, Scholars, Tools};

#[test]
fn bags_add_and_subtract_pointwise() {
    let a = Resources::from_tools(Tools(2))
        .plus(&Resources::from_coins(Coins(5)))
        .plus(&Resources::from_power(Power(3)));
    let b = Resources::from_books(Books(1)).plus(&Resources::from_scholars(Scholars(4)));
    let sum = a.plus(&b);

    assert_eq!(sum, Resources { tools: 2, coins: 5, scholars: 4, books: 1, power: 3 });
    assert_eq!(sum.minus(&b), a);
    assert_eq!(sum.minus(&sum), Resources::none());
}

#[test]
fn resource_kinds_from_counts() {
    assert_eq!(<Tools as Resource>::from(3), Tools(3));
    assert_eq!(<Coins as Resource>::from(0), Coins(0));
    assert_eq!(<Books as Resource>::from(7), Books(7));
}
