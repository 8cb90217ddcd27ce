//! Resolving an installation to the (account, device) pair the device
//! driver needs: a static table with an optional default fallback.

use vstd::prelude::*;
use vstd::string::*;
use crate::kvlist::KvList;

verus! {

/// The resolved mapping for an installation.
#[derive(Debug, Clone)]
pub struct AccountBinding {
    pub account_id: u64,
    pub device_id: String,
}

/// Yields the account and device bound to an installation, when any.
pub trait InstallationAccountResolver {
    /// The resolver's own well-formedness.
    spec fn wf(&self) -> bool;

    /// The binding this resolver denotes for an installation name.
    spec fn resolve_spec(&self, installation_id: Seq<char>) -> Option<(u64, Seq<char>)>;

    /// Resolves an installation; `None` means the caller must fail the
    /// operation with a clear no-binding error.
    fn resolve(&self, installation_id: &str) -> (r: Option<AccountBinding>)
        requires
            self.wf(),
        ensures
            match r {
                Some(b) => self.resolve_spec(installation_id@) == Some(
                    (b.account_id, b.device_id@),
                ),
                None => self.resolve_spec(installation_id@) is None,
            },
    ;
}

/// A static in-memory table from installation to (account, device), with
/// an optional default pair used when both default fields are present.
pub struct InMemoryResolver {
    pub map: KvList<(u64, String)>,
    pub default_account: Option<u64>,
    pub default_device: Option<String>,
}

impl InMemoryResolver {
    pub fn new(
        map: KvList<(u64, String)>,
        default_account: Option<u64>,
        default_device: Option<String>,
    ) -> (r: Self)
        requires
            map.wf(),
        ensures
            r.wf(),
            r.map == map,
            r.default_account == default_account,
            r.default_device == default_device,
    {
        InMemoryResolver { map, default_account, default_device }
    }
}

impl InstallationAccountResolver for InMemoryResolver {
    open spec fn wf(&self) -> bool {
        self.map.wf()
    }

    open spec fn resolve_spec(&self, installation_id: Seq<char>) -> Option<(u64, Seq<char>)> {
        if self.map.as_map().contains_key(installation_id) {
            let e = self.map.as_map()[installation_id];
            Some((e.0, e.1@))
        } else if self.default_account is Some && self.default_device is Some {
            Some((self.default_account.unwrap(), self.default_device.unwrap()@))
        } else {
            None
        }
    }

    fn resolve(&self, installation_id: &str) -> (r: Option<AccountBinding>) {
        match self.map.get(installation_id) {
            Some(entry) => Some(
                AccountBinding { account_id: entry.0, device_id: entry.1.clone() },
            ),
            None => {
                match (&self.default_account, &self.default_device) {
                    (Some(aid), Some(did)) => Some(
                        AccountBinding { account_id: *aid, device_id: did.clone() },
                    ),
                    _ => None,
                }
            },
        }
    }
}

} // verus!
