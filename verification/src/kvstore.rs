//! Interpretation rules of the key-value stores: what a fetched record
//! means, and what an expiring write must carry.  The store calls
//! themselves are the caller's asynchronous work; their responses come in
//! as plain values.

use vstd::prelude::*;

verus! {

/// The result of a key lookup.
pub struct GetResponse {
    /// The stored value; empty when the key does not exist.
    pub value: String,
    /// Whether the key exists.
    pub exists: bool,
}

/// A request to set a key.
pub struct SetRequest {
    /// The key to set.
    pub key: String,
    /// The value to store.
    pub value: String,
    /// Seconds until the value expires, or zero for no expiry.
    pub expires: u32,
}

/// Failure to interpret a store response or build a store request.
#[derive(Clone, Copy, Debug, PartialEq, Eq, Structural)]
pub enum KvError {
    /// The fetched record has no value attribute.
    MissingValueAttribute,
    /// The fetched record's value attribute is not a string.
    NonStringValue,
    /// A write with an expiry was asked for, but no time-to-live attribute
    /// is configured.
    ExpiryWithoutTtlAttribute,
}

/// One attribute value of a fetched record: a string, a number, or one of
/// the kinds this store does not use.
pub enum AttrValue {
    /// A string attribute.
    Text(String),
    /// A numeric attribute, carried as its decimal text.
    Number(String),
    /// Any other attribute kind.
    Other,
}

/// What a fetched record means: a missing record is a clean miss; a record
/// without the value attribute, or with a non-string one, is an error; and
/// a string value under the value attribute is the hit.
pub fn dynamo_get_response(item: Option<&Vec<(String, AttrValue)>>, value_attribute: &str) -> (r:
    Result<GetResponse, KvError>)
    ensures
        item is None ==> (r matches Ok(g) && !g.exists && g.value@ == Seq::<char>::empty()),
        item matches Some(m) ==> ((exists|i: int|
            0 <= i < m@.len() && (#[trigger] m@[i]).0@ == value_attribute@) <==> !(r matches Err(e)
            && e == KvError::MissingValueAttribute)),
        item matches Some(m) ==> (r matches Ok(g) ==> g.exists && (exists|i: int|
            0 <= i < m@.len() && (#[trigger] m@[i]).0@ == value_attribute@ && (m@[i].1 matches
            AttrValue::Text(t) && t@ == g.value@))),
{
    let m = match item {
        None => {
            return Ok(GetResponse { value: String::new(), exists: false });
        },
        Some(m) => m,
    };
    let k = value_attribute.to_owned();
    let n = m.len();
    let mut i: usize = 0;
    let mut found: Option<usize> = None;
    while i < n && found.is_none()
        invariant
            item == Some(m),
            n == m@.len(),
            i <= n,
            k@ == value_attribute@,
            found is None ==> forall|p: int|
                0 <= p < i ==> (#[trigger] m@[p]).0@ != value_attribute@,
            found matches Some(f) ==> f < n && (m@[f as int]).0@ == value_attribute@,
        decreases n - i + (if found.is_none() { 1int } else { 0int }),
    {
        if m[i].0 == k {
            found = Some(i);
        } else {
            i = i + 1;
        }
    }
    match found {
        None => {
            proof {
                if exists|p: int| 0 <= p < m@.len() && (#[trigger] m@[p]).0@ == value_attribute@ {
                    let w = choose|p: int|
                        0 <= p < m@.len() && (#[trigger] m@[p]).0@ == value_attribute@;
                    assert(false);
                }
            }
            Err(KvError::MissingValueAttribute)
        },
        Some(f) => match &m[f].1 {
            AttrValue::Text(t) => {
                let g = GetResponse { value: t.clone(), exists: true };
                proof {
                    assert((m@[f as int]).0@ == value_attribute@ && (m@[f as int].1 matches
                    AttrValue::Text(w) && w@ == g.value@));
                }
                Ok(g)
            },
            _ => Err(KvError::NonStringValue),
        },
    }
}

/// What an expiring write must carry: no expiry adds nothing; an expiry
/// without a configured time-to-live attribute is an error; otherwise the
/// record gains the attribute with the absolute expiry timestamp.
pub fn ttl_attribute_plan(expires: u32, ttl_attribute: &Option<String>, now_sec: i64) -> (r:
    Result<Option<(String, i64)>, KvError>)
    requires
        now_sec + expires as int <= i64::MAX,
    ensures
        expires == 0 ==> (r matches Ok(o) && o is None),
        expires > 0 && ttl_attribute is None ==> r == Err::<Option<(String, i64)>, KvError>(
            KvError::ExpiryWithoutTtlAttribute,
        ),
        ttl_attribute matches Some(a) ==> (expires > 0 ==> (r matches Ok(o) && (o matches Some(p)
            && p.0@ == a@ && p.1 == now_sec + expires as i64))),
{
    if expires == 0 {
        return Ok(None);
    }
    match ttl_attribute {
        None => Err(KvError::ExpiryWithoutTtlAttribute),
        Some(a) => Ok(Some((a.clone(), now_sec + expires as i64))),
    }
}

/// What a fetched secret means: a missing secret, or one without a `data`
/// entry, is a clean miss; a `data` entry is the hit.  The store keeps each
/// value under the `data` key of its secret's map.
pub fn vault_get_response(secret: Option<&Vec<(String, String)>>) -> (r: GetResponse)
    ensures
        secret is None ==> !r.exists && r.value@ == Seq::<char>::empty(),
        secret matches Some(m) ==> (r.exists <==> exists|i: int|
            0 <= i < m@.len() && (#[trigger] m@[i]).0@ == "data"@),
        secret matches Some(m) ==> (r.exists ==> exists|i: int|
            0 <= i < m@.len() && (#[trigger] m@[i]).0@ == "data"@ && m@[i].1@ == r.value@),
        secret matches Some(m) ==> (!r.exists ==> r.value@ == Seq::<char>::empty()),
{
    let m = match secret {
        None => {
            return GetResponse { value: String::new(), exists: false };
        },
        Some(m) => m,
    };
    let k: String = "data".to_owned();
    let n = m.len();
    let mut i: usize = 0;
    let mut found: Option<usize> = None;
    while i < n && found.is_none()
        invariant
            secret == Some(m),
            n == m@.len(),
            i <= n,
            k@ == "data"@,
            found is None ==> forall|p: int| 0 <= p < i ==> (#[trigger] m@[p]).0@ != "data"@,
            found matches Some(f) ==> f < n && (m@[f as int]).0@ == "data"@,
        decreases n - i + (if found.is_none() { 1int } else { 0int }),
    {
        if m[i].0 == k {
            found = Some(i);
        } else {
            i = i + 1;
        }
    }
    match found {
        None => {
            proof {
                if exists|p: int| 0 <= p < m@.len() && (#[trigger] m@[p]).0@ == "data"@ {
                    let w = choose|p: int| 0 <= p < m@.len() && (#[trigger] m@[p]).0@ == "data"@;
                    assert(false);
                }
            }
            GetResponse { value: String::new(), exists: false }
        },
        Some(f) => {
            let g = GetResponse { value: m[f].1.clone(), exists: true };
            proof {
                assert((m@[f as int]).0@ == "data"@ && m@[f as int].1@ == g.value@);
            }
            g
        },
    }
}

} // verus!
