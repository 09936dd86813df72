use vstd::prelude::*;
use vstd::utf8::encode_utf8;

use crate::address::Address;
use crate::error::FeePaymentError;
use crate::events::{AdCreated, AdRetrieved, AdToggled};
use crate::state::{
    Advertisement, ProgramState, MAX_AD_CONTENT_LENGTH, MAX_AD_ID_LENGTH, MAX_AD_URL_LENGTH,
    MIN_AD_REWARD, MIN_AD_VIEW_TIME,
};

verus! {

/// The UTF-8 encoding of a string.
pub open spec fn utf8_of(s: String) -> Seq<u8> {
    encode_utf8(s@)
}

/// The bytes of the scheme marker "https://".
pub open spec fn https_scheme() -> Seq<u8> {
    seq![104u8, 116u8, 116u8, 112u8, 115u8, 58u8, 47u8, 47u8]
}

/// Whether `b` begins with the secure-transport scheme marker.
pub open spec fn has_https_scheme(b: Seq<u8>) -> bool {
    b.len() >= 8 && b.subrange(0, 8) == https_scheme()
}

/// Whether the bytes `b` begin with "https://".
fn starts_with_https(b: &[u8]) -> (r: bool)
    ensures
        r == has_https_scheme(b@),
{
    if b.len() < 8 {
        return false;
    }
    let r: bool = b[0] == 104u8 && b[1] == 116u8 && b[2] == 116u8 && b[3] == 112u8 && b[4] == 115u8
        && b[5] == 58u8 && b[6] == 47u8 && b[7] == 47u8;
    proof {
        if r {
            assert(b@.subrange(0, 8) =~= https_scheme());
        } else {
            let head = b@.subrange(0, 8);
            if head == https_scheme() {
                assert(head[0] == 104u8 && head[1] == 116u8 && head[2] == 116u8 && head[3] == 112u8);
                assert(head[4] == 115u8 && head[5] == 58u8 && head[6] == 47u8 && head[7] == 47u8);
            }
        }
    }
    r
}

/// The advertisement that `create_ad` registers, or the first check it fails.
pub open spec fn create_ad_outcome(
    state: ProgramState,
    admin: Address,
    ad_id: String,
    ad_url: String,
    ad_content: String,
    reward_amount: u64,
    display_duration: i64,
    now: i64,
    bump: u8,
) -> Result<Advertisement, FeePaymentError> {
    if admin@ != state.admin@ {
        Err(FeePaymentError::Unauthorized)
    } else if state.is_paused {
        Err(FeePaymentError::ProgramPaused)
    } else if ad_id@.len() == 0 || utf8_of(ad_id).len() > MAX_AD_ID_LENGTH {
        Err(FeePaymentError::InvalidAdId)
    } else if !has_https_scheme(utf8_of(ad_url)) || utf8_of(ad_url).len() > MAX_AD_URL_LENGTH {
        Err(FeePaymentError::InvalidAdUrl)
    } else if ad_content@.len() == 0 || utf8_of(ad_content).len() > MAX_AD_CONTENT_LENGTH {
        Err(FeePaymentError::InvalidAdContent)
    } else if reward_amount < MIN_AD_REWARD {
        Err(FeePaymentError::RewardTooLow)
    } else if display_duration < MIN_AD_VIEW_TIME {
        Err(FeePaymentError::InvalidDisplayTime)
    } else {
        Ok(
            Advertisement {
                id: ad_id,
                url: ad_url,
                content: ad_content,
                reward_amount,
                display_duration,
                is_active: true,
                view_count: 0,
                created_at: now,
                bump,
            },
        )
    }
}

/// Registers a new, active advertisement with no views. Only the admin may,
/// and not while the pool is paused. Lengths are counted in bytes; `now`
/// is the trusted clock's reading.
pub fn create_ad(
    state: &ProgramState,
    admin: &Address,
    ad_id: String,
    ad_url: String,
    ad_content: String,
    reward_amount: u64,
    display_duration: i64,
    now: i64,
    bump: u8,
) -> (r: Result<(Advertisement, AdCreated), FeePaymentError>)
    ensures
        match create_ad_outcome(
            *state,
            *admin,
            ad_id,
            ad_url,
            ad_content,
            reward_amount,
            display_duration,
            now,
            bump,
        ) {
            Ok(ad) => r == Ok::<(Advertisement, AdCreated), FeePaymentError>(
                (
                    ad,
                    AdCreated {
                        ad_id,
                        reward_amount,
                        display_duration,
                        creator: *admin,
                        timestamp: now,
                    },
                ),
            ),
            Err(e) => r == Err::<(Advertisement, AdCreated), FeePaymentError>(e),
        },
{
    if *admin != state.admin {
        return Err(FeePaymentError::Unauthorized);
    }
    if state.is_paused {
        return Err(FeePaymentError::ProgramPaused);
    }
    let id_len: usize = ad_id.as_str().as_bytes().len();
    if ad_id.as_str().is_empty() || id_len > MAX_AD_ID_LENGTH {
        return Err(FeePaymentError::InvalidAdId);
    }
    let url_bytes: &[u8] = ad_url.as_str().as_bytes();
    if !starts_with_https(url_bytes) || url_bytes.len() > MAX_AD_URL_LENGTH {
        return Err(FeePaymentError::InvalidAdUrl);
    }
    let content_len: usize = ad_content.as_str().as_bytes().len();
    if ad_content.as_str().is_empty() || content_len > MAX_AD_CONTENT_LENGTH {
        return Err(FeePaymentError::InvalidAdContent);
    }
    if reward_amount < MIN_AD_REWARD {
        return Err(FeePaymentError::RewardTooLow);
    }
    if display_duration < MIN_AD_VIEW_TIME {
        return Err(FeePaymentError::InvalidDisplayTime);
    }
    let event = AdCreated {
        ad_id: ad_id.clone(),
        reward_amount,
        display_duration,
        creator: *admin,
        timestamp: now,
    };
    let ad = Advertisement {
        id: ad_id,
        url: ad_url,
        content: ad_content,
        reward_amount,
        display_duration,
        is_active: true,
        view_count: 0,
        created_at: now,
        bump,
    };
    Ok((ad, event))
}

/// Flips whether an advertisement may be chosen for new requests. Only the
/// admin may; requests already open on it are not affected.
pub fn toggle_ad(state: &ProgramState, ad: &mut Advertisement, admin: &Address) -> (r: Result<
    AdToggled,
    FeePaymentError,
>)
    ensures
        admin@ != state.admin@ ==> *final(ad) == *old(ad) && r == Err::<AdToggled, FeePaymentError>(
            FeePaymentError::Unauthorized,
        ),
        admin@ == state.admin@ ==> *final(ad) == (Advertisement {
            is_active: !old(ad).is_active,
            ..*old(ad)
        }) && r == Ok::<AdToggled, FeePaymentError>(
            AdToggled { ad_id: old(ad).id, is_active: !old(ad).is_active },
        ),
{
    if *admin != state.admin {
        return Err(FeePaymentError::Unauthorized);
    }
    ad.is_active = !ad.is_active;
    Ok(AdToggled { ad_id: ad.id.clone(), is_active: ad.is_active })
}

/// The display record of an advertisement, offered only while it is active.
pub fn get_random_ad(ad: &Advertisement) -> (r: Result<AdRetrieved, FeePaymentError>)
    ensures
        !ad.is_active ==> r == Err::<AdRetrieved, FeePaymentError>(FeePaymentError::AdNotActive),
        ad.is_active ==> r == Ok::<AdRetrieved, FeePaymentError>(
            AdRetrieved {
                ad_id: ad.id,
                ad_content: ad.content,
                ad_url: ad.url,
                display_duration: ad.display_duration,
                reward_amount: ad.reward_amount,
            },
        ),
{
    if !ad.is_active {
        return Err(FeePaymentError::AdNotActive);
    }
    Ok(
        AdRetrieved {
            ad_id: ad.id.clone(),
            ad_content: ad.content.clone(),
            ad_url: ad.url.clone(),
            display_duration: ad.display_duration,
            reward_amount: ad.reward_amount,
        },
    )
}

} // verus!
