use vstd::prelude::*;
use crate::error::ErrorCode;
use crate::pubkey::Pubkey;
use crate::state::config::Config;

verus! {

/// The platform settings created by `admin`: the artist's and the platform's
/// percentage of each sale and the pump.fun service wallet. Percentages that
/// add up to more than 100 are refused with `InvalidPercentage`.
pub fn create_config_handler(
    admin: Pubkey,
    percentage_artist: u8,
    percentage_mostro: u8,
    pump_fun_service_wallet: Pubkey,
) -> (r: Result<Config, ErrorCode>)
    ensures
        percentage_artist + percentage_mostro > 100 ==> r == Err::<Config, ErrorCode>(ErrorCode::InvalidPercentage),
        percentage_artist + percentage_mostro <= 100 ==> r == Ok::<Config, ErrorCode>(
            Config { percentage_artist, percentage_mostro, admin_wallet: admin, pump_fun_service_wallet },
        ),
        r matches Ok(c) ==> c.wf(),
{
    if percentage_artist as u16 + percentage_mostro as u16 > 100 {
        return Err(ErrorCode::InvalidPercentage);
    }
    Ok(Config { percentage_artist, percentage_mostro, admin_wallet: admin, pump_fun_service_wallet })
}

} // verus!
