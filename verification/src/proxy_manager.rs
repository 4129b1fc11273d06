//! The pool of proxies that the bots of one process share. Each proxy
//! serves at most three bots.

use vstd::prelude::*;
use vstd::string::StringExecFns;

verus! {

/// The most bots that one proxy serves.
pub const PROXY_CAPACITY: usize = 3;

/// The address and the credentials of a proxy.
#[derive(Debug, Clone)]
pub struct Proxy {
    pub ip: String,
    pub port: u16,
    pub username: String,
    pub password: String,
}

/// A proxy of the pool and the bots that use it.
#[derive(Debug, Clone)]
pub struct ProxyData {
    pub proxy: Proxy,
    pub whos_using: Vec<String>,
}

/// The pool.
#[derive(Debug, Clone)]
pub struct ProxyManager {
    pub proxies: Vec<ProxyData>,
}

/// The first proxy of the pool that still has room, or the size of the pool
/// where every proxy is full.
pub open spec fn first_free(proxies: Seq<ProxyData>) -> int
    decreases proxies.len(),
{
    if proxies.len() == 0 {
        0
    } else if proxies[0].whos_using@.len() < PROXY_CAPACITY {
        0
    } else {
        1 + first_free(proxies.skip(1))
    }
}

/// `first_free` is the one place before which every proxy is full and at
/// which, if it lies in the pool, a proxy has room.
pub proof fn lemma_first_free(proxies: Seq<ProxyData>, k: int)
    requires
        0 <= k <= proxies.len(),
        forall|j: int| 0 <= j < k ==> (#[trigger] proxies[j]).whos_using@.len() >= PROXY_CAPACITY,
        k < proxies.len() ==> proxies[k].whos_using@.len() < PROXY_CAPACITY,
    ensures
        first_free(proxies) == k,
    decreases k,
{
    if k > 0 {
        let t = proxies.skip(1);
        assert(proxies[0].whos_using@.len() >= PROXY_CAPACITY);
        assert forall|j: int| 0 <= j < k - 1 implies (#[trigger] t[j]).whos_using@.len()
            >= PROXY_CAPACITY by {
            assert(t[j] == proxies[j + 1]);
        }
        lemma_first_free(t, k - 1);
    }
}

impl ProxyManager {
    /// No proxy serves more bots than the capacity.
    pub open spec fn wf(&self) -> bool {
        forall|i: int|
            0 <= i < self.proxies@.len() ==> (#[trigger] self.proxies@[i]).whos_using@.len()
                <= PROXY_CAPACITY
    }

    /// An empty pool.
    pub fn new() -> (r: ProxyManager)
        ensures
            r.wf(),
            r.proxies@.len() == 0,
    {
        ProxyManager { proxies: Vec::new() }
    }

    /// Adds a proxy that no bot uses yet.
    pub fn add(&mut self, proxy: Proxy)
        requires
            old(self).wf(),
        ensures
            final(self).wf(),
            final(self).proxies@.len() == old(self).proxies@.len() + 1,
            final(self).proxies@.drop_last() == old(self).proxies@,
            final(self).proxies@.last().proxy == proxy,
            final(self).proxies@.last().whos_using@.len() == 0,
    {
        self.proxies.push(ProxyData { proxy, whos_using: Vec::new() });
        assert(self.proxies@.drop_last() =~= old(self).proxies@);
    }

    /// Claims a slot for the bot `identity` on the first proxy that has
    /// room, and returns the place of that proxy in the pool with its
    /// address and credentials. Where every proxy is full the pool stays as
    /// it is.
    pub fn claim(&mut self, identity: &str) -> (r: Option<(usize, Proxy)>)
        requires
            old(self).wf(),
        ensures
            final(self).wf(),
            final(self).proxies@.len() == old(self).proxies@.len(),
            match r {
                Some((index, proxy)) => {
                    &&& index == first_free(old(self).proxies@)
                    &&& index < old(self).proxies@.len()
                    &&& proxy == old(self).proxies@[index as int].proxy
                    &&& final(self).proxies@[index as int].proxy == proxy
                    &&& final(self).proxies@[index as int].whos_using@.len() == old(
                        self,
                    ).proxies@[index as int].whos_using@.len() + 1
                    &&& final(self).proxies@[index as int].whos_using@.last()@ == identity@
                    &&& final(self).proxies@[index as int].whos_using@.drop_last() == old(
                        self,
                    ).proxies@[index as int].whos_using@
                    &&& forall|j: int|
                        0 <= j < old(self).proxies@.len() && j != index ==> final(self).proxies@[j]
                            == old(self).proxies@[j]
                },
                None => {
                    &&& first_free(old(self).proxies@) == old(self).proxies@.len()
                    &&& final(self).proxies == old(self).proxies
                },
            },
    {
        let n: usize = self.proxies.len();
        let mut i: usize = 0;
        while i < n && self.proxies[i].whos_using.len() >= PROXY_CAPACITY
            invariant
                n == self.proxies@.len(),
                i <= n,
                forall|j: int|
                    0 <= j < i ==> (#[trigger] self.proxies@[j]).whos_using@.len() >= PROXY_CAPACITY,
            decreases n - i,
        {
            i += 1;
        }
        proof {
            lemma_first_free(self.proxies@, i as int);
        }
        if i == n {
            return None;
        }
        let proxy = Proxy {
            ip: self.proxies[i].proxy.ip.clone(),
            port: self.proxies[i].proxy.port,
            username: self.proxies[i].proxy.username.clone(),
            password: self.proxies[i].proxy.password.clone(),
        };
        self.proxies[i].whos_using.push(String::from_str(identity));
        assert(self.proxies@[i as int].whos_using@.drop_last() =~= old(self).proxies@[i as int].whos_using@);
        Some((i, proxy))
    }
}

/// However often slots are claimed, no proxy ever serves more bots than the
/// capacity: a claim keeps a pool that is in order in order, and adds one
/// bot to at most one proxy that had room.
pub proof fn law_capacity(before: ProxyManager, after: ProxyManager, index: int)
    requires
        before.wf(),
        0 <= index < before.proxies@.len(),
        index == first_free(before.proxies@),
        after.proxies@.len() == before.proxies@.len(),
        after.proxies@[index].whos_using@.len() == before.proxies@[index].whos_using@.len() + 1,
        forall|j: int|
            0 <= j < before.proxies@.len() && j != index ==> after.proxies@[j] == before.proxies@[j],
    ensures
        after.wf(),
{
    lemma_first_free_has_room(before.proxies@);
    assert forall|i: int| 0 <= i < after.proxies@.len() implies (#[trigger] after.proxies@[i]).whos_using@.len()
        <= PROXY_CAPACITY by {
        if i != index {
            assert(after.proxies@[i] == before.proxies@[i]);
        }
    }
}

/// The proxy at `first_free`, if it lies in the pool, has room.
pub proof fn lemma_first_free_has_room(proxies: Seq<ProxyData>)
    ensures
        0 <= first_free(proxies) <= proxies.len(),
        first_free(proxies) < proxies.len() ==> proxies[first_free(proxies)].whos_using@.len()
            < PROXY_CAPACITY,
    decreases proxies.len(),
{
    if proxies.len() > 0 && proxies[0].whos_using@.len() >= PROXY_CAPACITY {
        let t = proxies.skip(1);
        lemma_first_free_has_room(t);
        if first_free(t) < t.len() {
            assert(t[first_free(t)] == proxies[first_free(t) + 1]);
        }
    }
}

} // verus!
