//! The registry of assets that the exchange trades: which assets are listed,
//! at what price, and who may change the list.
//!
//! The registry is plain data. Whoever calls it says which account signed the
//! request; the registry compares that account with its administrator and
//! decides.

use crate::address::Address;
use vstd::prelude::*;

verus! {

/// Number of implied digits of the two assets every list starts with.
pub const INITIAL_DECIMALS: u8 = 6;

/// The price of the USD asset, which is never updated: one, with four
/// implied digits.
pub const USD_PRICE: u64 = 10_000;

/// Why a request to the registry was turned down.
#[derive(Clone, Copy, Debug, PartialEq, Eq, Structural)]
pub enum ErrorCode {
    /// A failure of no particular kind.
    ErrorType,
    /// The request was not signed by the administrator.
    Unauthorized,
    /// No listed asset has the address asked for.
    NoAssetFound,
}

/// One listed asset.
#[derive(Clone, Copy, Debug, PartialEq)]
pub struct Asset {
    /// The account of the price feed of this asset.
    pub feed_address: Address,
    /// The account of the token of this asset.
    pub asset_address: Address,
    /// The last price taken from the feed.
    pub price: u64,
    /// The amount in circulation.
    pub supply: u64,
    /// The number of implied digits of an amount of this asset.
    pub decimals: u8,
    /// The slot in which the price was last taken.
    pub last_update: u64,
    /// The largest supply allowed.
    pub max_supply: u64,
}

/// A price read from a feed account.
#[derive(Clone, Copy, Debug, PartialEq)]
pub struct PriceFeed {
    /// The account of the feed.
    pub address: Address,
    /// The price that the feed holds.
    pub price: u64,
}

/// The listed assets, in the order in which they were listed.
#[derive(Clone, Debug, PartialEq)]
pub struct AssetsList {
    /// Whether the list has been given its first two assets.
    pub initialized: bool,
    /// The assets.
    pub assets: Vec<Asset>,
}

/// The administrator of the registry.
#[derive(Clone, Copy, Debug, PartialEq)]
pub struct InternalState {
    /// The account that may change the list.
    pub admin: Address,
    /// Whether an administrator has been named.
    pub initialized: bool,
}

impl Asset {
    /// The asset of an unused slot of the list: every field zero.
    pub open spec fn empty() -> Asset {
        Asset {
            feed_address: Address::zero(),
            asset_address: Address::zero(),
            price: 0,
            supply: 0,
            decimals: 0,
            last_update: 0,
            max_supply: 0,
        }
    }

    /// The USD asset: no feed, a fixed price that is never due for an
    /// update, and no limit on the supply.
    pub open spec fn usd(usd_token: Address) -> Asset {
        Asset {
            feed_address: Address::zero(),
            asset_address: usd_token,
            price: USD_PRICE,
            supply: 0,
            decimals: INITIAL_DECIMALS,
            last_update: u64::MAX,
            max_supply: u64::MAX,
        }
    }

    /// The collateral asset: not priced yet, and no limit on the supply.
    pub open spec fn collateral(
        collateral_token: Address,
        collateral_token_feed: Address,
    ) -> Asset {
        Asset {
            feed_address: collateral_token_feed,
            asset_address: collateral_token,
            price: 0,
            supply: 0,
            decimals: INITIAL_DECIMALS,
            last_update: 0,
            max_supply: u64::MAX,
        }
    }

    /// A newly listed asset: not priced yet and nothing in circulation.
    pub open spec fn listed(
        feed_address: Address,
        asset_address: Address,
        decimals: u8,
        max_supply: u64,
    ) -> Asset {
        Asset {
            feed_address,
            asset_address,
            price: 0,
            supply: 0,
            decimals,
            last_update: 0,
            max_supply,
        }
    }
}

impl Default for Asset {
    fn default() -> (res: Self)
        ensures
            res == Asset::empty(),
    {
        Asset {
            feed_address: Address::default(),
            asset_address: Address::default(),
            price: 0,
            supply: 0,
            decimals: 0,
            last_update: 0,
            max_supply: 0,
        }
    }
}

/// The feed addresses of `assets`, in order.
pub open spec fn feed_addresses(assets: Seq<Asset>) -> Seq<Address> {
    assets.map_values(|asset: Asset| asset.feed_address)
}

/// The token addresses of `assets`, in order.
pub open spec fn asset_addresses(assets: Seq<Asset>) -> Seq<Address> {
    assets.map_values(|asset: Asset| asset.asset_address)
}

/// `assets` after the first asset with token address `asset_address` was
/// given the limit `new_max_supply`, or `None` when no asset has that
/// address.
pub open spec fn with_max_supply(
    assets: Seq<Asset>,
    asset_address: Address,
    new_max_supply: u64,
) -> Option<Seq<Asset>> {
    match asset_addresses(assets).index_of_first(asset_address) {
        Some(i) => Some(assets.update(i, Asset { max_supply: new_max_supply, ..assets[i] })),
        None => None,
    }
}

/// `assets` after the first asset fed by `feed.address` took the price of
/// `feed` in slot `slot`, or `None` when no asset has that feed.
pub open spec fn with_price(assets: Seq<Asset>, feed: PriceFeed, slot: u64) -> Option<Seq<Asset>> {
    match feed_addresses(assets).index_of_first(feed.address) {
        Some(i) => Some(
            assets.update(i, Asset { price: feed.price, last_update: slot, ..assets[i] }),
        ),
        None => None,
    }
}

/// `assets` after the prices of `feeds` were taken one after the other, and
/// whether every feed belonged to an asset. At the first feed that belongs
/// to none the assets stay as the feeds before it left them.
pub open spec fn with_prices(assets: Seq<Asset>, feeds: Seq<PriceFeed>, slot: u64) -> (
    Seq<Asset>,
    bool,
)
    decreases feeds.len(),
{
    if feeds.len() == 0 {
        (assets, true)
    } else {
        match with_price(assets, feeds[0], slot) {
            Some(next) => with_prices(next, feeds.drop_first(), slot),
            None => (assets, false),
        }
    }
}

impl AssetsList {
    /// The position of the first asset whose feed is `feed_address`.
    pub fn position_by_feed(&self, feed_address: &Address) -> (res: Option<usize>)
        ensures
            match res {
                Some(i) => i < self.assets.len() && feed_addresses(self.assets@).index_of_first(
                    *feed_address,
                ) == Some(i as int),
                None => feed_addresses(self.assets@).index_of_first(*feed_address) is None,
            },
    {
        let ghost keys = feed_addresses(self.assets@);
        let mut i: usize = 0;
        while i < self.assets.len()
            invariant
                i <= self.assets.len(),
                keys == feed_addresses(self.assets@),
                forall|j: int| 0 <= j < i ==> keys[j] != *feed_address,
            decreases self.assets.len() - i,
        {
            if self.assets[i].feed_address == *feed_address {
                proof {
                    assert(keys[i as int] == *feed_address);
                    keys.index_of_first_ensures(*feed_address);
                }
                return Some(i);
            }
            i = i + 1;
        }
        proof {
            keys.index_of_first_ensures(*feed_address);
        }
        None
    }

    /// The position of the first asset whose token is `asset_address`.
    pub fn position_by_asset(&self, asset_address: &Address) -> (res: Option<usize>)
        ensures
            match res {
                Some(i) => i < self.assets.len() && asset_addresses(self.assets@).index_of_first(
                    *asset_address,
                ) == Some(i as int),
                None => asset_addresses(self.assets@).index_of_first(*asset_address) is None,
            },
    {
        let ghost keys = asset_addresses(self.assets@);
        let mut i: usize = 0;
        while i < self.assets.len()
            invariant
                i <= self.assets.len(),
                keys == asset_addresses(self.assets@),
                forall|j: int| 0 <= j < i ==> keys[j] != *asset_address,
            decreases self.assets.len() - i,
        {
            if self.assets[i].asset_address == *asset_address {
                proof {
                    assert(keys[i as int] == *asset_address);
                    keys.index_of_first_ensures(*asset_address);
                }
                return Some(i);
            }
            i = i + 1;
        }
        proof {
            keys.index_of_first_ensures(*asset_address);
        }
        None
    }

    /// Takes the price of `feed` in slot `slot` for the first asset that
    /// `feed` belongs to. Fails with `NoAssetFound`, and changes nothing,
    /// when it belongs to none.
    pub fn set_asset_price(&mut self, feed: &PriceFeed, slot: u64) -> (res: Result<(), ErrorCode>)
        ensures
            final(self).initialized == old(self).initialized,
            match with_price(old(self).assets@, *feed, slot) {
                Some(next) => res == Ok::<(), ErrorCode>(()) && final(self).assets@ == next,
                None => res == Err::<(), ErrorCode>(ErrorCode::NoAssetFound)
                    && final(self).assets@ == old(self).assets@,
            },
    {
        match self.position_by_feed(&feed.address) {
            Some(i) => {
                let mut asset = self.assets[i];
                asset.price = feed.price;
                asset.last_update = slot;
                self.assets.set(i, asset);
                Ok(())
            },
            None => Err(ErrorCode::NoAssetFound),
        }
    }
}

impl InternalState {
    /// A registry without an administrator.
    pub fn new() -> (res: Result<Self, ErrorCode>)
        ensures
            res == Ok::<InternalState, ErrorCode>(
                InternalState { admin: Address::zero(), initialized: false },
            ),
    {
        Ok(Self { admin: Address::default(), initialized: false })
    }

    /// Names `admin` the administrator.
    pub fn initialize(&mut self, admin: Address) -> (res: Result<(), ErrorCode>)
        ensures
            res == Ok::<(), ErrorCode>(()),
            *final(self) == (InternalState { admin, initialized: true }),
    {
        self.initialized = true;
        self.admin = admin;
        Ok(())
    }

    /// Gives `assets_list` its first two assets, the USD asset and the
    /// collateral asset, in place of whatever it held. Fails with
    /// `Unauthorized`, and changes nothing, unless `signer` is the
    /// administrator.
    pub fn create_list(
        &mut self,
        assets_list: &mut AssetsList,
        signer: &Address,
        collateral_token: Address,
        collateral_token_feed: Address,
        usd_token: Address,
    ) -> (res: Result<(), ErrorCode>)
        ensures
            *final(self) == *old(self),
            old(self).admin != *signer ==> res == Err::<(), ErrorCode>(ErrorCode::Unauthorized)
                && final(assets_list).initialized == old(assets_list).initialized
                && final(assets_list).assets@ == old(assets_list).assets@,
            old(self).admin == *signer ==> res == Ok::<(), ErrorCode>(())
                && final(assets_list).initialized
                && final(assets_list).assets@ == seq![
                Asset::usd(usd_token),
                Asset::collateral(collateral_token, collateral_token_feed),
            ],
    {
        if !(self.admin == *signer) {
            return Err(ErrorCode::Unauthorized);
        }
        let usd_asset = Asset {
            decimals: INITIAL_DECIMALS,
            asset_address: usd_token,
            feed_address: Address::default(),
            last_update: u64::MAX,
            price: USD_PRICE,
            supply: 0,
            max_supply: u64::MAX,
        };
        let collateral_asset = Asset {
            decimals: INITIAL_DECIMALS,
            asset_address: collateral_token,
            feed_address: collateral_token_feed,
            last_update: 0,
            price: 0,
            supply: 0,
            max_supply: u64::MAX,
        };
        let mut assets: Vec<Asset> = Vec::new();
        assets.push(usd_asset);
        assets.push(collateral_asset);
        assets_list.assets = assets;
        assets_list.initialized = true;
        Ok(())
    }

    /// Lists one more asset, behind those already listed. Fails with
    /// `Unauthorized`, and changes nothing, unless `signer` is the
    /// administrator.
    pub fn add_new_asset(
        &mut self,
        assets_list: &mut AssetsList,
        signer: &Address,
        new_asset_feed_address: Address,
        new_asset_address: Address,
        new_asset_decimals: u8,
        new_asset_max_supply: u64,
    ) -> (res: Result<(), ErrorCode>)
        ensures
            *final(self) == *old(self),
            final(assets_list).initialized == old(assets_list).initialized,
            old(self).admin != *signer ==> res == Err::<(), ErrorCode>(ErrorCode::Unauthorized)
                && final(assets_list).assets@ == old(assets_list).assets@,
            old(self).admin == *signer ==> res == Ok::<(), ErrorCode>(())
                && final(assets_list).assets@ == old(assets_list).assets@.push(
                Asset::listed(
                    new_asset_feed_address,
                    new_asset_address,
                    new_asset_decimals,
                    new_asset_max_supply,
                ),
            ),
    {
        if !(self.admin == *signer) {
            return Err(ErrorCode::Unauthorized);
        }
        let new_asset = Asset {
            decimals: new_asset_decimals,
            asset_address: new_asset_address,
            feed_address: new_asset_feed_address,
            last_update: 0,
            price: 0,
            supply: 0,
            max_supply: new_asset_max_supply,
        };
        assets_list.assets.push(new_asset);
        Ok(())
    }

    /// Changes the largest supply allowed of the first asset whose token is
    /// `asset_address`. Fails with `Unauthorized` unless `signer` is the
    /// administrator, and otherwise with `NoAssetFound` when no asset has
    /// that token; a call that fails changes nothing.
    pub fn set_max_supply(
        &mut self,
        assets_list: &mut AssetsList,
        signer: &Address,
        asset_address: Address,
        new_max_supply: u64,
    ) -> (res: Result<(), ErrorCode>)
        ensures
            *final(self) == *old(self),
            final(assets_list).initialized == old(assets_list).initialized,
            old(self).admin != *signer ==> res == Err::<(), ErrorCode>(ErrorCode::Unauthorized)
                && final(assets_list).assets@ == old(assets_list).assets@,
            old(self).admin == *signer ==> match with_max_supply(
                old(assets_list).assets@,
                asset_address,
                new_max_supply,
            ) {
                Some(next) => res == Ok::<(), ErrorCode>(()) && final(assets_list).assets@ == next,
                None => res == Err::<(), ErrorCode>(ErrorCode::NoAssetFound)
                    && final(assets_list).assets@ == old(assets_list).assets@,
            },
    {
        if !(self.admin == *signer) {
            return Err(ErrorCode::Unauthorized);
        }
        match assets_list.position_by_asset(&asset_address) {
            Some(i) => {
                let mut asset = assets_list.assets[i];
                asset.max_supply = new_max_supply;
                assets_list.assets.set(i, asset);
                Ok(())
            },
            None => Err(ErrorCode::NoAssetFound),
        }
    }
}

/// Makes `assets_list` a list of `length` unused slots, not yet initialized.
pub fn create_assets_list(assets_list: &mut AssetsList, length: u32) -> (res: Result<
    (),
    ErrorCode,
>)
    ensures
        res == Ok::<(), ErrorCode>(()),
        !final(assets_list).initialized,
        final(assets_list).assets@ == Seq::new(length as nat, |i: int| Asset::empty()),
{
    assets_list.initialized = false;
    let mut assets: Vec<Asset> = Vec::new();
    let mut i: u32 = 0;
    while i < length
        invariant
            i <= length,
            assets@ == Seq::new(i as nat, |i: int| Asset::empty()),
        decreases length - i,
    {
        assets.push(Asset::default());
        i = i + 1;
    }
    assets_list.assets = assets;
    Ok(())
}

/// Takes the prices of `feeds`, one after the other, in slot `slot`. Stops
/// with `NoAssetFound` at the first feed that belongs to no asset; the
/// prices taken before it stay.
pub fn set_assets_prices(assets_list: &mut AssetsList, feeds: &Vec<PriceFeed>, slot: u64) -> (res:
    Result<(), ErrorCode>)
    ensures
        final(assets_list).initialized == old(assets_list).initialized,
        final(assets_list).assets@ == with_prices(old(assets_list).assets@, feeds@, slot).0,
        res == (if with_prices(old(assets_list).assets@, feeds@, slot).1 {
            Ok::<(), ErrorCode>(())
        } else {
            Err::<(), ErrorCode>(ErrorCode::NoAssetFound)
        }),
{
    let mut k: usize = 0;
    assert(feeds@.skip(0) =~= feeds@);
    while k < feeds.len()
        invariant
            k <= feeds.len(),
            assets_list.initialized == old(assets_list).initialized,
            with_prices(assets_list.assets@, feeds@.skip(k as int), slot) == with_prices(
                old(assets_list).assets@,
                feeds@,
                slot,
            ),
        decreases feeds.len() - k,
    {
        proof {
            assert(feeds@.skip(k as int).drop_first() =~= feeds@.skip(k as int + 1));
            assert(feeds@.skip(k as int)[0] == feeds@[k as int]);
        }
        match assets_list.set_asset_price(&feeds[k], slot) {
            Ok(()) => {},
            Err(error) => {
                return Err(error);
            },
        }
        k = k + 1;
    }
    Ok(())
}

} // verus!
