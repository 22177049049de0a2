use vstd::prelude::*;
use crate::pubkey::Pubkey;

verus! {

/// Platform-wide settings: the fee split and the wallets involved.
#[derive(Clone, Copy, Debug)]
pub struct Config {
    pub percentage_artist: u8,
    pub percentage_mostro: u8,
    pub admin_wallet: Pubkey,
    pub pump_fun_service_wallet: Pubkey,
}

impl Config {
    /// The fee split never hands out more than the whole amount.
    pub open spec fn wf(&self) -> bool {
        self.percentage_artist + self.percentage_mostro <= 100
    }

    /// Bytes reserved for the account: discriminator, two percentages and
    /// two addresses.
    pub fn space() -> (r: usize)
        ensures
            r == 8 + 1 + 1 + 32 + 32,
    {
        8 + 1 + 1 + 32 + 32
    }
}

} // verus!
