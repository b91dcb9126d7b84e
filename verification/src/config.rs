//! Data-source configuration and the deterministic addressing scheme
//! that maps a ledger sequence number to its object-store URL.
//!
//! Keys embed the bit-inverted sequence number as eight upper-case hex
//! digits, so that lexicographic listing order of keys is descending
//! numeric order of sequence numbers (see `numstr::lemma_partition_key_order`).

use vstd::prelude::*;

use crate::numstr::{dec_of, hex8, hex8_of, u32_to_dec};
use crate::strops::str_eq;
use crate::textio::{lower_of, lowercase};

verus! {

/// Configuration for the ledger data sources.
pub struct Config {
    pub network_passphrase: String,
    pub ledgers_per_batch: u32,
    pub batches_per_partition: u32,
    pub base_url: String,
    pub ledgers_path: String,
}

impl Default for Config {
    fn default() -> (r: Config)
        ensures
            r.network_passphrase@ == "Public Global Stellar Network ; September 2015"@,
            r.ledgers_per_batch == 1,
            r.batches_per_partition == 64000,
            r.base_url@ == "https://aws-public-blockchain.s3.us-east-2.amazonaws.com"@,
            r.ledgers_path@ == "v1.1/stellar/ledgers/pubnet"@,
    {
        Config {
            network_passphrase: "Public Global Stellar Network ; September 2015".to_owned(),
            ledgers_per_batch: 1,
            batches_per_partition: 64000,
            base_url: "https://aws-public-blockchain.s3.us-east-2.amazonaws.com".to_owned(),
            ledgers_path: "v1.1/stellar/ledgers/pubnet".to_owned(),
        }
    }
}

/// The first sequence of the partition that `n` falls in.
pub open spec fn partition_start_of(n: u32, per_partition: u32) -> int {
    (n as int / per_partition as int) * per_partition as int
}

/// The object-store URL for sequence `n` under configuration `cfg`.
pub open spec fn url_of(cfg: Config, n: u32) -> Seq<char> {
    let ps = partition_start_of(n, cfg.batches_per_partition);
    let pe = ps + cfg.batches_per_partition - 1;
    let be = n + cfg.ledgers_per_batch - 1;
    cfg.base_url@ + "/"@ + cfg.ledgers_path@ + "/"@ + hex8_of((0xFFFF_FFFF - ps) as u32) + "--"@
        + dec_of(ps as nat) + "-"@ + dec_of(pe as nat) + "/"@ + hex8_of((0xFFFF_FFFF - n) as u32)
        + "--"@ + dec_of(n as nat) + (if cfg.ledgers_per_batch == 1 {
        Seq::<char>::empty()
    } else {
        "-"@ + dec_of(be as nat)
    }) + ".xdr.zst"@
}

/// Which token contract a shortcut resolves to, on the lower-cased form.
pub open spec fn token_contract_of(l: Seq<char>) -> Option<Seq<char>> {
    if l == "xlm"@ {
        Some("CAS3J7GYLGXMF6TDJBBYYSE3HQ6BBSMLNUQ34T6TZMYMW2EVH34XOWMA"@)
    } else if l == "usdc"@ {
        Some("CCW67TSZV3SSS2HXMBQ5JFGCKJNXKZM7UQUWUZPUTHXSTZLEO7SJMI75"@)
    } else if l == "kale"@ {
        Some("CB23WRDQWGSP6YPMY4UV5C4OW5CBTXKYN3XEATG7KJEZCXMJBYEHOUOV"@)
    } else {
        None
    }
}

impl Config {
    /// The RPC endpoint used as the fallback source for ledger records.
    pub fn rpc_url() -> (r: &'static str)
        ensures
            r@ == "https://archive-rpc.lightsail.network/"@,
    {
        "https://archive-rpc.lightsail.network/"
    }

    /// The RPC endpoint used for simulated contract calls.
    pub fn soroban_rpc_url() -> (r: &'static str)
        ensures
            r@ == "https://rpc.lightsail.network/"@,
    {
        "https://rpc.lightsail.network/"
    }

    /// Resolves a token shortcut, case-insensitively, to its contract
    /// address; an unknown shortcut resolves to nothing.
    pub fn resolve_token(token: &str) -> (r: Option<&'static str>)
        ensures
            match r {
                Some(c) => token_contract_of(lower_of(token@)) == Some(c@),
                None => token_contract_of(lower_of(token@)) is None,
            },
    {
        let low = lowercase(token);
        if str_eq(low.as_str(), "xlm") {
            Some("CAS3J7GYLGXMF6TDJBBYYSE3HQ6BBSMLNUQ34T6TZMYMW2EVH34XOWMA")
        } else if str_eq(low.as_str(), "usdc") {
            Some("CCW67TSZV3SSS2HXMBQ5JFGCKJNXKZM7UQUWUZPUTHXSTZLEO7SJMI75")
        } else if str_eq(low.as_str(), "kale") {
            Some("CB23WRDQWGSP6YPMY4UV5C4OW5CBTXKYN3XEATG7KJEZCXMJBYEHOUOV")
        } else {
            None
        }
    }

    /// Builds the object-store URL for ledger sequence `n`.
    ///
    /// The domain is limited only by the machine arithmetic the scheme
    /// itself performs: the batch end and the partition end must fit in
    /// 32 bits, and a partition must hold at least one batch.
    pub fn generate_url(&self, n: u32) -> (r: String)
        requires
            self.batches_per_partition >= 1,
            self.ledgers_per_batch >= 1,
            n + self.ledgers_per_batch - 1 <= u32::MAX,
            partition_start_of(n, self.batches_per_partition) + self.batches_per_partition - 1
                <= u32::MAX,
        ensures
            r@ == url_of(*self, n),
    {
        let batch_end = n + (self.ledgers_per_batch - 1);
        let partition_start = (n / self.batches_per_partition) * self.batches_per_partition;
        let partition_end = partition_start + (self.batches_per_partition - 1);

        let mut url = self.base_url.clone();
        url.append("/");
        url.append(self.ledgers_path.as_str());
        url.append("/");
        url.append(hex8(0xFFFF_FFFF - partition_start).as_str());
        url.append("--");
        url.append(u32_to_dec(partition_start).as_str());
        url.append("-");
        url.append(u32_to_dec(partition_end).as_str());
        url.append("/");
        url.append(hex8(0xFFFF_FFFF - n).as_str());
        url.append("--");
        url.append(u32_to_dec(n).as_str());
        if self.ledgers_per_batch != 1 {
            url.append("-");
            url.append(u32_to_dec(batch_end).as_str());
        }
        url.append(".xdr.zst");
        proof {
            assert(url@ =~= url_of(*self, n));
        }
        url
    }
}

} // verus!
