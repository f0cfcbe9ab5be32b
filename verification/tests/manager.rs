use exchange::address::Address;
use exchange::manager::{
    create_assets_list, set_assets_prices, Asset, AssetsList, ErrorCode, InternalState, PriceFeed,
    INITIAL_DECIMALS, USD_PRICE,
};

fn address(tag: u8) -> Address {
    let mut bytes = [0u8; 32];
    bytes[31] = tag;
    Address { bytes }
}

fn state_with_admin(admin: Address) -> InternalState {
    let mut state = InternalState::new().unwrap();
    state.initialize(admin).unwrap();
    state
}

fn empty_list() -> AssetsList {
    AssetsList { initialized: false, assets: Vec::new() }
}

fn listed_three() -> (InternalState, AssetsList) {
    let admin = address(1);
    let mut state = state_with_admin(admin);
    let mut list = empty_list();
    state.create_list(&mut list, &admin, address(10), address(11), address(12)).unwrap();
    state.add_new_asset(&mut list, &admin, address(21), address(20), 8, 5_000).unwrap();
    (state, list)
}

#[test]
fn addresses_compare_byte_by_byte() {
    assert_eq!(address(3), address(3));
    assert_ne!(address(3), address(4));
    let mut first = [0u8; 32];
    first[0] = 3;
    assert_ne!(Address { bytes: first }, address(3));
    assert_eq!(Address::new(first), Address { bytes: first });
    assert_eq!(Address::default(), Address { bytes: [0u8; 32] });
    assert_eq!(Address::default(), address(0));
}

#[test]
fn new_state_has_no_administrator() {
    let state = InternalState::new().unwrap();
    assert_eq!(state.admin, Address::default());
    assert!(!state.initialized);
}

#[test]
fn initialize_names_the_administrator() {
    let mut state = InternalState::new().unwrap();
    assert_eq!(state.initialize(address(7)), Ok(()));
    assert_eq!(state, InternalState { admin: address(7), initialized: true });
    assert_eq!(state.initialize(address(8)), Ok(()));
    assert_eq!(state.admin, address(8));
}

#[test]
fn default_asset_is_all_zero() {
    assert_eq!(
        Asset::default(),
        Asset {
            feed_address: Address { bytes: [0u8; 32] },
            asset_address: Address { bytes: [0u8; 32] },
            price: 0,
            supply: 0,
            decimals: 0,
            last_update: 0,
            max_supply: 0,
        }
    );
}

#[test]
fn create_assets_list_makes_unused_slots() {
    let mut list = AssetsList { initialized: true, assets: vec![Asset::default()] };
    assert_eq!(create_assets_list(&mut list, 3), Ok(()));
    assert!(!list.initialized);
    assert_eq!(list.assets, vec![Asset::default(), Asset::default(), Asset::default()]);
    assert_eq!(create_assets_list(&mut list, 0), Ok(()));
    assert!(list.assets.is_empty());
}

#[test]
fn create_list_starts_with_usd_and_collateral() {
    let admin = address(1);
    let mut state = state_with_admin(admin);
    let mut list = empty_list();
    create_assets_list(&mut list, 5).unwrap();
    let collateral_token = address(10);
    let collateral_feed = address(11);
    let usd_token = address(12);
    assert_eq!(
        state.create_list(&mut list, &admin, collateral_token, collateral_feed, usd_token),
        Ok(())
    );
    assert!(list.initialized);
    assert_eq!(
        list.assets,
        vec![
            Asset {
                feed_address: Address::default(),
                asset_address: usd_token,
                price: 10_000,
                supply: 0,
                decimals: 6,
                last_update: u64::MAX,
                max_supply: u64::MAX,
            },
            Asset {
                feed_address: collateral_feed,
                asset_address: collateral_token,
                price: 0,
                supply: 0,
                decimals: 6,
                last_update: 0,
                max_supply: u64::MAX,
            },
        ]
    );
    assert_eq!(state, InternalState { admin, initialized: true });
    assert_eq!(USD_PRICE, 10_000);
    assert_eq!(INITIAL_DECIMALS, 6);
}

#[test]
fn create_list_needs_the_administrator() {
    let admin = address(1);
    let mut state = state_with_admin(admin);
    let mut list = empty_list();
    create_assets_list(&mut list, 2).unwrap();
    let before = list.clone();
    assert_eq!(
        state.create_list(&mut list, &address(2), address(10), address(11), address(12)),
        Err(ErrorCode::Unauthorized)
    );
    assert_eq!(list, before);
}

#[test]
fn add_new_asset_appends() {
    let (mut state, mut list) = listed_three();
    assert_eq!(list.assets.len(), 3);
    assert_eq!(
        list.assets[2],
        Asset {
            feed_address: address(21),
            asset_address: address(20),
            price: 0,
            supply: 0,
            decimals: 8,
            last_update: 0,
            max_supply: 5_000,
        }
    );
    let before = list.clone();
    assert_eq!(
        state.add_new_asset(&mut list, &address(9), address(31), address(30), 2, 1),
        Err(ErrorCode::Unauthorized)
    );
    assert_eq!(list, before);
    assert!(list.initialized);
}

#[test]
fn set_max_supply_changes_one_asset() {
    let (mut state, mut list) = listed_three();
    let before = list.clone();
    assert_eq!(state.set_max_supply(&mut list, &address(1), address(20), 77), Ok(()));
    assert_eq!(list.assets[2].max_supply, 77);
    assert_eq!(list.assets[0], before.assets[0]);
    assert_eq!(list.assets[1], before.assets[1]);
    assert_eq!(list.assets[2], Asset { max_supply: 77, ..before.assets[2] });
    assert_eq!(list.assets.len(), 3);
}

#[test]
fn set_max_supply_errors() {
    let (mut state, mut list) = listed_three();
    let before = list.clone();
    assert_eq!(
        state.set_max_supply(&mut list, &address(1), address(99), 77),
        Err(ErrorCode::NoAssetFound)
    );
    assert_eq!(list, before);
    assert_eq!(
        state.set_max_supply(&mut list, &address(2), address(20), 77),
        Err(ErrorCode::Unauthorized)
    );
    assert_eq!(list, before);
    // the signer is looked at before the asset
    assert_eq!(
        state.set_max_supply(&mut list, &address(2), address(99), 77),
        Err(ErrorCode::Unauthorized)
    );
}

#[test]
fn set_max_supply_takes_the_first_of_two() {
    let (mut state, mut list) = listed_three();
    state.add_new_asset(&mut list, &address(1), address(41), address(20), 3, 9).unwrap();
    assert_eq!(state.set_max_supply(&mut list, &address(1), address(20), 1), Ok(()));
    assert_eq!(list.assets[2].max_supply, 1);
    assert_eq!(list.assets[3].max_supply, 9);
}

#[test]
fn positions_of_assets() {
    let (_, list) = listed_three();
    assert_eq!(list.position_by_asset(&address(12)), Some(0));
    assert_eq!(list.position_by_asset(&address(10)), Some(1));
    assert_eq!(list.position_by_asset(&address(20)), Some(2));
    assert_eq!(list.position_by_asset(&address(21)), None);
    assert_eq!(list.position_by_feed(&Address::default()), Some(0));
    assert_eq!(list.position_by_feed(&address(11)), Some(1));
    assert_eq!(list.position_by_feed(&address(21)), Some(2));
    assert_eq!(list.position_by_feed(&address(20)), None);
    assert_eq!(empty_list().position_by_feed(&address(20)), None);
}

#[test]
fn set_asset_price_takes_price_and_slot() {
    let (_, mut list) = listed_three();
    let before = list.clone();
    let feed = PriceFeed { address: address(21), price: 123_456 };
    assert_eq!(list.set_asset_price(&feed, 900), Ok(()));
    assert_eq!(
        list.assets[2],
        Asset { price: 123_456, last_update: 900, ..before.assets[2] }
    );
    assert_eq!(list.assets[0], before.assets[0]);
    assert_eq!(list.assets[1], before.assets[1]);
    let unknown = PriceFeed { address: address(77), price: 1 };
    let again = list.clone();
    assert_eq!(list.set_asset_price(&unknown, 901), Err(ErrorCode::NoAssetFound));
    assert_eq!(list, again);
}

#[test]
fn set_assets_prices_takes_every_feed() {
    let (_, mut list) = listed_three();
    let feeds = vec![
        PriceFeed { address: address(21), price: 5 },
        PriceFeed { address: address(11), price: 7 },
        PriceFeed { address: address(21), price: 6 },
    ];
    assert_eq!(set_assets_prices(&mut list, &feeds, 42), Ok(()));
    assert_eq!(list.assets[1].price, 7);
    assert_eq!(list.assets[1].last_update, 42);
    assert_eq!(list.assets[2].price, 6);
    assert_eq!(list.assets[2].last_update, 42);
    assert_eq!(list.assets[0].price, 10_000);
    assert_eq!(list.assets[0].last_update, u64::MAX);
    assert!(list.initialized);
}

#[test]
fn set_assets_prices_stops_at_an_unknown_feed() {
    let (_, mut list) = listed_three();
    let feeds = vec![
        PriceFeed { address: address(21), price: 5 },
        PriceFeed { address: address(77), price: 7 },
        PriceFeed { address: address(11), price: 9 },
    ];
    assert_eq!(set_assets_prices(&mut list, &feeds, 42), Err(ErrorCode::NoAssetFound));
    assert_eq!(list.assets[2].price, 5);
    assert_eq!(list.assets[2].last_update, 42);
    assert_eq!(list.assets[1].price, 0);
    assert_eq!(list.assets[1].last_update, 0);
}

#[test]
fn set_assets_prices_without_feeds_changes_nothing() {
    let (_, mut list) = listed_three();
    let before = list.clone();
    assert_eq!(set_assets_prices(&mut list, &Vec::new(), 42), Ok(()));
    assert_eq!(list, before);
}

#[test]
fn a_feed_without_account_prices_the_usd_asset() {
    // the USD asset is listed with the zero address as its feed
    let (_, mut list) = listed_three();
    let feeds = vec![PriceFeed { address: Address::default(), price: 1 }];
    assert_eq!(set_assets_prices(&mut list, &feeds, 3), Ok(()));
    assert_eq!(list.assets[0].price, 1);
    assert_eq!(list.assets[0].last_update, 3);
}
