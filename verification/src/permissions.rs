//! Permission grants: the grant list a plugin's requested permissions make,
//! and the keys a grant list grants.
use crate::manifest::{permission_key, PluginPermission};
use crate::text::{owned, str_eq};
use vstd::prelude::*;

verus! {

#[derive(Debug, Clone, PartialEq, Eq)]
pub struct PluginPermissionGrantItem {
    pub permission_key: String,
    pub granted: bool,
}

/// The texts of a grant list.
pub open spec fn grant_items(v: Seq<PluginPermissionGrantItem>) -> Seq<(Seq<char>, bool)> {
    v.map_values(|g: PluginPermissionGrantItem| (g.permission_key@, g.granted))
}

/// Whether `key` is one of `keys`.
pub open spec fn key_listed(keys: Seq<String>, key: Seq<char>) -> bool {
    exists|i: int| 0 <= i < keys.len() && #[trigger] keys[i]@ == key
}

fn is_listed(keys: &[String], key: &str) -> (r: bool)
    ensures
        r == key_listed(keys@, key@),
{
    let mut i: usize = 0;
    while i < keys.len()
        invariant
            i <= keys.len(),
            forall|j: int| 0 <= j < i ==> #[trigger] keys@[j]@ != key@,
        decreases keys.len() - i,
    {
        if str_eq(keys[i].as_str(), key) {
            return true;
        }
        i = i + 1;
    }
    false
}

/// One grant item per permission, in order: its key, granted when the key
/// is among `granted_keys`.
pub fn permission_keys_to_items(permissions: &[PluginPermission], granted_keys: &[String]) -> (r:
    Vec<PluginPermissionGrantItem>)
    ensures
        r@.len() == permissions@.len(),
        forall|i: int|
            0 <= i < permissions@.len() ==> #[trigger] r@[i].permission_key@ == permission_key(
                permissions@[i],
            ) && r@[i].granted == key_listed(granted_keys@, permission_key(permissions@[i])),
{
    let mut r: Vec<PluginPermissionGrantItem> = Vec::new();
    let mut i: usize = 0;
    while i < permissions.len()
        invariant
            i <= permissions.len(),
            r@.len() == i,
            forall|j: int|
                0 <= j < i ==> #[trigger] r@[j].permission_key@ == permission_key(permissions@[j])
                    && r@[j].granted == key_listed(granted_keys@, permission_key(permissions@[j])),
        decreases permissions.len() - i,
    {
        let p = permissions[i];
        let key = p.as_key();
        let granted = is_listed(granted_keys, key);
        assert(p == permissions@[i as int]);
        let ghost before = r@;
        r.push(PluginPermissionGrantItem { permission_key: owned(key), granted });
        proof {
            assert forall|j: int| 0 <= j <= i implies #[trigger] r@[j].permission_key@
                == permission_key(permissions@[j]) && r@[j].granted == key_listed(
                granted_keys@,
                permission_key(permissions@[j]),
            ) by {
                if j < i {
                    assert(r@[j] == before[j]);
                } else {
                    assert(j == i);
                    assert(p == permissions@[i as int]);
                }
            }
            assert(r@[i as int].permission_key@ == permission_key(permissions@[i as int]));
            assert(r@[i as int].granted == key_listed(granted_keys@, permission_key(permissions@[i as int])));
        }
        i = i + 1;
    }
    r
}

/// The keys a grant list grants, in order.
pub open spec fn granted_keys(items: Seq<(Seq<char>, bool)>) -> Seq<Seq<char>>
    decreases items.len(),
{
    if items.len() == 0 {
        Seq::empty()
    } else if items.last().1 {
        granted_keys(items.drop_last()).push(items.last().0)
    } else {
        granted_keys(items.drop_last())
    }
}

/// The keys of the granted items, in order.
pub fn granted_permission_keys_of(grants: &[PluginPermissionGrantItem]) -> (r: Vec<String>)
    ensures
        crate::runtime::views(r@) == granted_keys(grant_items(grants@)),
{
    let mut r: Vec<String> = Vec::new();
    let mut i: usize = 0;
    proof {
        assert(grant_items(grants@).take(0) =~= Seq::<(Seq<char>, bool)>::empty());
        assert(crate::runtime::views(r@) =~= Seq::<Seq<char>>::empty());
    }
    while i < grants.len()
        invariant
            i <= grants.len(),
            crate::runtime::views(r@) == granted_keys(grant_items(grants@).take(i as int)),
        decreases grants.len() - i,
    {
        let ghost before = r@;
        proof {
            assert(grant_items(grants@).take(i + 1).drop_last() =~= grant_items(grants@).take(
                i as int,
            ));
        }
        if grants[i].granted {
            let k = grants[i].permission_key.clone();
            r.push(k);
            proof {
                crate::runtime::lemma_views_push(before, k);
            }
        }
        i = i + 1;
    }
    proof {
        assert(grant_items(grants@).take(grants@.len() as int) =~= grant_items(grants@));
    }
    r
}

} // verus!
