use vstd::prelude::*;
use vstd::utf8::encode_utf8;
use crate::error::ErrorCode;
use crate::pda::{program_address_of, try_find_program_address};
use crate::pubkey::Pubkey;
use crate::state::artist::{Artist, LatestSingle};

verus! {

/// The fixed first seed of an artist's address: the bytes of "artist".
pub open spec fn artist_seed_prefix() -> Seq<u8> {
    seq![97u8, 114u8, 116u8, 105u8, 115u8, 116u8]
}

/// The seeds of the address of the artist called `name`.
pub open spec fn artist_seeds(name: Seq<char>) -> Seq<Seq<u8>> {
    seq![artist_seed_prefix(), encode_utf8(name)]
}

/// The record of a new artist, with no campaign tokens sold yet.
pub open spec fn new_artist(
    name: String,
    image: String,
    latest_single_title: String,
    latest_single_duration: String,
    mint: Pubkey,
    total_tokens: u64,
) -> Artist {
    Artist {
        name,
        image,
        latest_single: LatestSingle { title: latest_single_title, duration: latest_single_duration },
        total_tokens,
        campaign_tokens_sold: 0,
        mint,
    }
}

/// The new artist record, provided that `artist_key` is the address derived
/// for the artist (`expected`); any other account, or no derived address,
/// is refused with `InvalidArtist`.
pub fn init_artist(
    artist_key: Pubkey,
    expected: Option<(Pubkey, u8)>,
    artist_name: String,
    image: String,
    latest_single_title: String,
    latest_single_duration: String,
    mint: Pubkey,
    total_tokens: u64,
) -> (r: Result<Artist, ErrorCode>)
    ensures
        (expected matches Some((k, _)) && k@ == artist_key@) ==> r == Ok::<Artist, ErrorCode>(
            new_artist(artist_name, image, latest_single_title, latest_single_duration, mint, total_tokens),
        ),
        !(expected matches Some((k, _)) && k@ == artist_key@) ==> r == Err::<Artist, ErrorCode>(
            ErrorCode::InvalidArtist,
        ),
{
    match expected {
        Some((k, _)) => {
            if k != artist_key {
                return Err(ErrorCode::InvalidArtist);
            }
        },
        None => return Err(ErrorCode::InvalidArtist),
    }
    Ok(
        Artist {
            name: artist_name,
            image,
            latest_single: LatestSingle { title: latest_single_title, duration: latest_single_duration },
            total_tokens,
            campaign_tokens_sold: 0,
            mint,
        },
    )
}

/// Creates the record of the artist called `artist_name` in the account at
/// `artist_key`, which must be the address derived from "artist" and the
/// name under `program_id`; else the call is refused with `InvalidArtist`.
/// A name longer than 32 bytes derives no address and is always refused.
pub fn create_artist_handler(
    artist_key: Pubkey,
    program_id: Pubkey,
    artist_name: String,
    image: String,
    latest_single_title: String,
    latest_single_duration: String,
    mint: Pubkey,
    total_tokens: u64,
) -> (r: Result<Artist, ErrorCode>)
    ensures
        (program_address_of(artist_seeds(artist_name@), program_id@) matches Some((k, _)) && k == artist_key@)
            ==> r == Ok::<Artist, ErrorCode>(
            new_artist(artist_name, image, latest_single_title, latest_single_duration, mint, total_tokens),
        ),
        !(program_address_of(artist_seeds(artist_name@), program_id@) matches Some((k, _)) && k
            == artist_key@) ==> r == Err::<Artist, ErrorCode>(ErrorCode::InvalidArtist),
        encode_utf8(artist_name@).len() > 32 ==> r == Err::<Artist, ErrorCode>(ErrorCode::InvalidArtist),
{
    let prefix: [u8; 6] = [97u8, 114u8, 116u8, 105u8, 115u8, 116u8];
    let seeds: [&[u8]; 2] = [prefix.as_slice(), artist_name.as_str().as_bytes()];
    let found = try_find_program_address(seeds.as_slice(), &program_id);
    proof {
        assert(prefix@ =~= artist_seed_prefix());
        assert(crate::pda::seed_bytes(seeds@) =~= artist_seeds(artist_name@));
        if encode_utf8(artist_name@).len() > 32 {
            assert(seeds@[1]@.len() > 32);
        }
    }
    init_artist(
        artist_key,
        found,
        artist_name,
        image,
        latest_single_title,
        latest_single_duration,
        mint,
        total_tokens,
    )
}

} // verus!
