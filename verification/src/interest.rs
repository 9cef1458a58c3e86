//! Interest / yield distribution: allocates vault-reported gains among
//! sender, receiver and protocol under a 3-bit strategy mask.
//!
//! The outputs always sum to exactly the distributed gain; floor division
//! remainders go to the first enabled party in sender > receiver > protocol
//! priority, and an empty mask defaults the whole gain to the receiver.

use vstd::prelude::*;

verus! {

use crate::types::{
    InterestDistribution,
    INTEREST_TO_PROTOCOL,
    INTEREST_TO_RECEIVER,
    INTEREST_TO_SENDER,
};

/// Whether the strategy mask enables the sender.
pub open spec fn sender_enabled(strategy: u32) -> bool {
    strategy % 2 == 1
}

/// Whether the strategy mask enables the receiver.
pub open spec fn receiver_enabled(strategy: u32) -> bool {
    (strategy / 2) % 2 == 1
}

/// Whether the strategy mask enables the protocol.
pub open spec fn protocol_enabled(strategy: u32) -> bool {
    (strategy / 4) % 2 == 1
}

/// Number of parties the strategy mask enables.
pub open spec fn enabled_parties(strategy: u32) -> int {
    (if sender_enabled(strategy) {
        1int
    } else {
        0int
    }) + (if receiver_enabled(strategy) {
        1int
    } else {
        0int
    }) + (if protocol_enabled(strategy) {
        1int
    } else {
        0int
    })
}

/// The sender's share of `total` under `strategy`.
pub open spec fn share_to_sender(total: int, strategy: u32) -> int {
    if total <= 0 {
        0
    } else if strategy == 1 {
        total
    } else if strategy == 2 || strategy == 4 {
        0
    } else if strategy == 3 {
        total - total / 2
    } else if strategy == 7 {
        total - 2 * (total / 3)
    } else {
        let n = enabled_parties(strategy);
        if n == 0 || !sender_enabled(strategy) {
            0
        } else {
            total - (n - 1) * (total / n)
        }
    }
}

/// The receiver's share of `total` under `strategy`. An empty mask is not
/// an error: the whole gain defaults to the receiver.
pub open spec fn share_to_receiver(total: int, strategy: u32) -> int {
    if total <= 0 {
        0
    } else if strategy == 2 {
        total
    } else if strategy == 1 || strategy == 4 {
        0
    } else if strategy == 3 {
        total / 2
    } else if strategy == 7 {
        total / 3
    } else {
        let n = enabled_parties(strategy);
        if n == 0 {
            total
        } else if !receiver_enabled(strategy) {
            0
        } else if sender_enabled(strategy) {
            total / n
        } else {
            total - (n - 1) * (total / n)
        }
    }
}

/// The protocol's share of `total` under `strategy`.
pub open spec fn share_to_protocol(total: int, strategy: u32) -> int {
    if total <= 0 {
        0
    } else if strategy == 4 {
        total
    } else if strategy == 1 || strategy == 2 {
        0
    } else if strategy == 3 {
        0
    } else if strategy == 7 {
        total / 3
    } else {
        let n = enabled_parties(strategy);
        if n == 0 || !protocol_enabled(strategy) {
            0
        } else if sender_enabled(strategy) || receiver_enabled(strategy) {
            total / n
        } else {
            total - (n - 1) * (total / n)
        }
    }
}

/// Split `total_interest` among sender, receiver and protocol under the
/// 3-bit strategy mask. A single set bit routes everything to that party;
/// several set bits split evenly, with the floor-division remainder going
/// to the first enabled party in sender > receiver > protocol priority; no
/// set bit defaults everything to the receiver. A non-positive gain
/// distributes nothing. The three outputs always sum to the recorded
/// `total_interest` exactly.
pub fn calculate_interest_distribution(total_interest: i128, strategy: u32) -> (r:
    InterestDistribution)
    ensures
        r.to_sender == share_to_sender(total_interest as int, strategy),
        r.to_receiver == share_to_receiver(total_interest as int, strategy),
        r.to_protocol == share_to_protocol(total_interest as int, strategy),
        r.total_interest == if total_interest <= 0 {
            0int
        } else {
            total_interest as int
        },
        r.to_sender + r.to_receiver + r.to_protocol == r.total_interest,
        r.to_sender >= 0 && r.to_receiver >= 0 && r.to_protocol >= 0,
{
    proof {
        lemma_interest_conservation(total_interest as int, strategy);
    }
    if total_interest <= 0 {
        return InterestDistribution {
            to_sender: 0,
            to_receiver: 0,
            to_protocol: 0,
            total_interest: 0,
        };
    }
    let (to_sender, to_receiver, to_protocol): (i128, i128, i128) = if strategy
        == INTEREST_TO_SENDER {
        (total_interest, 0, 0)
    } else if strategy == INTEREST_TO_RECEIVER {
        (0, total_interest, 0)
    } else if strategy == INTEREST_TO_PROTOCOL {
        (0, 0, total_interest)
    } else if strategy == 3 {
        let half = total_interest / 2;
        let remainder = total_interest - (half * 2);
        (half + remainder, half, 0)
    } else if strategy == 7 {
        let third = total_interest / 3;
        let remainder = total_interest - (third * 3);
        (third + remainder, third, third)
    } else {
        let sender_on = strategy % 2 == 1;
        let receiver_on = (strategy / 2) % 2 == 1;
        let protocol_on = (strategy / 4) % 2 == 1;
        let total_bits: i128 = (if sender_on {
            1
        } else {
            0
        }) + (if receiver_on {
            1
        } else {
            0
        }) + (if protocol_on {
            1
        } else {
            0
        });
        if total_bits == 0 {
            (0, total_interest, 0)
        } else {
            let share = total_interest / total_bits;
            proof {
                if total_bits == 1 {
                    assert(share * total_bits == total_interest);
                } else if total_bits == 2 {
                    assert(0 <= share * 2 <= total_interest);
                } else {
                    assert(total_bits == 3);
                    assert(0 <= share * 3 <= total_interest);
                }
            }
            let remainder = total_interest - (share * total_bits);
            let s = if sender_on {
                share
            } else {
                0
            };
            let rcv = if receiver_on {
                share
            } else {
                0
            };
            let p = if protocol_on {
                share
            } else {
                0
            };
            if sender_on {
                (s + remainder, rcv, p)
            } else if receiver_on {
                (s, rcv + remainder, p)
            } else {
                (s, rcv, p + remainder)
            }
        }
    };
    InterestDistribution { to_sender, to_receiver, to_protocol, total_interest }
}

/// Gain a vault reports over the deposited principal; a vault that lost
/// value yields zero, never negative interest.
pub fn calculate_vault_interest(current_vault_value: i128, original_principal: i128) -> (r: i128)
    requires
        current_vault_value - original_principal <= i128::MAX,
    ensures
        r == if current_vault_value > original_principal {
            current_vault_value - original_principal
        } else {
            0int
        },
{
    if current_vault_value > original_principal {
        current_vault_value - original_principal
    } else {
        0
    }
}

/// Interest attributable to one withdrawal: the vault gain pro-rated by
/// the withdrawn principal's share of the total,
/// `floor(total_interest * withdrawable_principal / total_amount)`.
/// The result is then split with `calculate_interest_distribution`; only
/// the receiver's share joins the payout, the other shares are paid
/// directly in the same step.
pub fn calculate_withdrawal_interest(
    total_interest: i128,
    withdrawable_principal: i128,
    total_amount: i128,
) -> (r: i128)
    requires
        total_interest >= 0,
        0 <= withdrawable_principal <= total_amount,
        0 < total_amount,
        total_interest * withdrawable_principal <= i128::MAX,
    ensures
        r == total_interest * withdrawable_principal / (total_amount as int),
        0 <= r <= total_interest,
{
    proof {
        crate::math::lemma_mul_window(
            total_interest as int,
            withdrawable_principal as int,
            total_amount as int,
        );
        vstd::arithmetic::div_mod::lemma_div_pos_is_pos(
            total_interest * withdrawable_principal,
            total_amount as int,
        );
        vstd::arithmetic::div_mod::lemma_multiply_divide_le(
            total_interest * withdrawable_principal,
            total_amount as int,
            total_interest as int,
        );
    }
    (total_interest * withdrawable_principal) / total_amount
}

/// Interest conservation: for every gain and every strategy mask the three
/// shares sum to exactly the distributed gain, and none is negative.
pub proof fn lemma_interest_conservation(total: int, strategy: u32)
    ensures
        share_to_sender(total, strategy) + share_to_receiver(total, strategy) + share_to_protocol(
            total,
            strategy,
        ) == if total <= 0 {
            0int
        } else {
            total
        },
        share_to_sender(total, strategy) >= 0,
        share_to_receiver(total, strategy) >= 0,
        share_to_protocol(total, strategy) >= 0,
{
    if total > 0 {
        if strategy == 3 {
            assert(0 <= total / 2 <= total - total / 2);
        } else if strategy == 7 {
            assert(3 * (total / 3) <= total && total / 3 >= 0);
        } else if !(strategy == 1 || strategy == 2 || strategy == 4) {
            let n = enabled_parties(strategy);
            assert(0 <= n <= 3);
            if n == 1 {
                assert(total / 1 == total);
            } else if n == 2 {
                assert(0 <= total / 2 && 2 * (total / 2) <= total);
            } else if n == 3 {
                assert(0 <= total / 3 && 3 * (total / 3) <= total);
            }
            assert(share_to_sender(total, strategy) >= 0);
            assert(share_to_receiver(total, strategy) >= 0);
            assert(share_to_protocol(total, strategy) >= 0);
        }
    }
    assert(share_to_sender(total, strategy) >= 0);
    assert(share_to_receiver(total, strategy) >= 0);
    assert(share_to_protocol(total, strategy) >= 0);
}

} // verus!
