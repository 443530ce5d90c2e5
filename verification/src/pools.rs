//! The staking pools that are known by their public key, and the lookup
//! that attributes a block to one of them.

use crate::text::same_text;
use vstd::prelude::*;

verus! {

/// An entry of the table of known pools.
#[derive(Debug, Copy, Clone)]
pub struct PrivatePool {
    pub pubkey: &'static str,
    pub url: &'static str,
    pub is_active: bool,
}

/// A pool as it is recorded with a block.
#[derive(Debug, Clone, PartialEq, Eq)]
pub struct Pool {
    pub pubkey: String,
    pub url: Option<String>,
    pub pool_is_active: Option<bool>,
}

impl PrivatePool {
    /// `pool` is the record of this entry: the same key, the same address,
    /// the same activity, and no field left open.
    pub open spec fn describes(self, pool: Pool) -> bool {
        &&& pool.pubkey@ == self.pubkey@
        &&& pool.url is Some
        &&& pool.url->0@ == self.url@
        &&& pool.pool_is_active == Some(self.is_active)
    }

    /// The entry as a pool record.
    pub fn getpool(self) -> (res: Pool)
        ensures
            self.describes(res),
    {
        Pool {
            pubkey: self.pubkey.to_owned(),
            url: Some(self.url.to_owned()),
            pool_is_active: Some(self.is_active),
        }
    }
}

/// The known pools, in the order in which they are searched.
pub open spec fn pool_table() -> Seq<PrivatePool> {
    seq![
        PrivatePool {
            pubkey: "gcs179wukwy95kewa6pex7f47w3xuzn3nywqdng394",
            url: "https://myghost.org/",
            is_active: true,
        },
        PrivatePool {
            pubkey: "gcs1wzjvh9cmdf5h9atk785tvmu68729534rzu34p6",
            url: "https://mega.myghost.org/",
            is_active: true,
        },
        PrivatePool {
            pubkey: "gcs1gvdfylxy4597rq5qutqelr9m37ewtsvzkza8j2",
            url: "https://ghostcsp.ddns.net/",
            is_active: true,
        },
        PrivatePool {
            pubkey: "gcs1zn850aeltu0d85fruw4wf5yt2e4nj990802p2r",
            url: "https://superghostpos.ru/",
            is_active: true,
        },
        PrivatePool {
            pubkey: "gcs169zkwmr9zt8mz2epql8wnly3dyf4hkavcprrm2",
            url: "https://пул.гост.рус",
            is_active: true,
        },
        PrivatePool {
            pubkey: "gcs1al0tw5g8danpluh2rsqxkd5cj4sc08wc2tsvjt",
            url: "https://ghostake.com",
            is_active: false,
        },
        PrivatePool {
            pubkey: "gcs12ezltnndc6f6ds4zcwdy82d6mv94xx2anch950",
            url: "https://ghost.coldstake.io/",
            is_active: false,
        },
        PrivatePool {
            pubkey: "gcs1wmr49e2fd8p09dll8djdfsek6m5zuxhjdq3c4c",
            url: "https://ghost-pool.darkpay.market/",
            is_active: false,
        },
        PrivatePool {
            pubkey: "gcs1cxgy3uzz05djx5j0g40trxkweq7jwllkzzpkf5",
            url: "https://ghoststake.com/",
            is_active: false,
        },
        PrivatePool {
            pubkey: "gcs1gujv3jjfec75pqkezjckskxw9cfvvdmjkw5g6x",
            url: "https://ghost.novastera.eu/",
            is_active: false,
        },
        PrivatePool {
            pubkey: "gcs10hnqtq2uvm538n8xck5e7phyqgast5v2m5wv7f",
            url: "https://ghost.cheap/",
            is_active: false,
        },
        PrivatePool {
            pubkey: "gcs154p3rm80dg3arc5jak3293mkgk45uhfggej3da",
            url: "https://ghost-pool.net/",
            is_active: false,
        },
    ]
}

/// The table of known pools.
pub fn pools() -> (res: Vec<PrivatePool>)
    ensures
        res@ == pool_table(),
{
    let mut table: Vec<PrivatePool> = Vec::new();
    table.push(
        PrivatePool {
            pubkey: "gcs179wukwy95kewa6pex7f47w3xuzn3nywqdng394",
            url: "https://myghost.org/",
            is_active: true,
        },
    );
    table.push(
        PrivatePool {
            pubkey: "gcs1wzjvh9cmdf5h9atk785tvmu68729534rzu34p6",
            url: "https://mega.myghost.org/",
            is_active: true,
        },
    );
    table.push(
        PrivatePool {
            pubkey: "gcs1gvdfylxy4597rq5qutqelr9m37ewtsvzkza8j2",
            url: "https://ghostcsp.ddns.net/",
            is_active: true,
        },
    );
    table.push(
        PrivatePool {
            pubkey: "gcs1zn850aeltu0d85fruw4wf5yt2e4nj990802p2r",
            url: "https://superghostpos.ru/",
            is_active: true,
        },
    );
    table.push(
        PrivatePool {
            pubkey: "gcs169zkwmr9zt8mz2epql8wnly3dyf4hkavcprrm2",
            url: "https://пул.гост.рус",
            is_active: true,
        },
    );
    table.push(
        PrivatePool {
            pubkey: "gcs1al0tw5g8danpluh2rsqxkd5cj4sc08wc2tsvjt",
            url: "https://ghostake.com",
            is_active: false,
        },
    );
    table.push(
        PrivatePool {
            pubkey: "gcs12ezltnndc6f6ds4zcwdy82d6mv94xx2anch950",
            url: "https://ghost.coldstake.io/",
            is_active: false,
        },
    );
    table.push(
        PrivatePool {
            pubkey: "gcs1wmr49e2fd8p09dll8djdfsek6m5zuxhjdq3c4c",
            url: "https://ghost-pool.darkpay.market/",
            is_active: false,
        },
    );
    table.push(
        PrivatePool {
            pubkey: "gcs1cxgy3uzz05djx5j0g40trxkweq7jwllkzzpkf5",
            url: "https://ghoststake.com/",
            is_active: false,
        },
    );
    table.push(
        PrivatePool {
            pubkey: "gcs1gujv3jjfec75pqkezjckskxw9cfvvdmjkw5g6x",
            url: "https://ghost.novastera.eu/",
            is_active: false,
        },
    );
    table.push(
        PrivatePool {
            pubkey: "gcs10hnqtq2uvm538n8xck5e7phyqgast5v2m5wv7f",
            url: "https://ghost.cheap/",
            is_active: false,
        },
    );
    table.push(
        PrivatePool {
            pubkey: "gcs154p3rm80dg3arc5jak3293mkgk45uhfggej3da",
            url: "https://ghost-pool.net/",
            is_active: false,
        },
    );
    assert(table@ =~= pool_table());
    table
}

/// The entry at index `i` of `table` is the first whose key is `address`.
pub open spec fn first_with_key(table: Seq<PrivatePool>, address: Seq<char>, i: int) -> bool {
    &&& 0 <= i < table.len()
    &&& table[i].pubkey@ == address
    &&& forall|j: int| 0 <= j < i ==> (#[trigger] table[j]).pubkey@ != address
}

/// No entry of `table` has the key `address`.
pub open spec fn no_key(table: Seq<PrivatePool>, address: Seq<char>) -> bool {
    forall|j: int| 0 <= j < table.len() ==> (#[trigger] table[j]).pubkey@ != address
}

/// `res` is what the lookup of `address` in `table` gives: the record of the
/// first entry with that key, or nothing when no entry has it.
pub open spec fn found_in(table: Seq<PrivatePool>, address: Seq<char>, res: Option<Pool>) -> bool {
    &&& res is None <==> no_key(table, address)
    &&& res matches Some(pool) ==> exists|i: int|
        first_with_key(table, address, i) && (#[trigger] table[i]).describes(pool)
}

/// Looks `address` up among the keys of `table` and gives the record of the
/// first entry that has it.
pub fn find_pool(table: &Vec<PrivatePool>, address: &str) -> (res: Option<Pool>)
    ensures
        found_in(table@, address@, res),
{
    let mut i: usize = 0;
    while i < table.len()
        invariant
            i <= table.len(),
            forall|j: int| 0 <= j < i ==> (#[trigger] table@[j]).pubkey@ != address@,
        decreases table.len() - i,
    {
        let entry: PrivatePool = table[i];
        if same_text(entry.pubkey, address) {
            let pool = entry.getpool();
            assert(first_with_key(table@, address@, i as int));
            return Some(pool);
        }
        i += 1;
    }
    None
}

/// Attributes a stake address to a known pool: the record of the first
/// entry of the table whose key is the address, or nothing when no entry
/// has it.
pub fn attribute(address: &str) -> (res: Option<Pool>)
    ensures
        found_in(pool_table(), address@, res),
{
    let table = pools();
    find_pool(&table, address)
}

} // verus!
