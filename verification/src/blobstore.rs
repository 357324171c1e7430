//! Rules of the filesystem blob store's upload path: what an upload request
//! must look like and which stream it belongs to.  The file writing itself
//! is the caller's I/O.

use vstd::prelude::*;
use vstd::string::StringExecFns;

use crate::strutil::{first_value, spec_first_value};
use crate::values::RawValues;

verus! {

/// Failure to accept a blob-store request.
#[derive(Clone, Copy, Debug, PartialEq, Eq, Structural)]
pub enum BlobError {
    /// The uploaded chunk holds no bytes.
    EmptyObject,
}

/// Decides an object upload: a chunk without bytes is rejected; a final
/// chunk needs no stream, any other chunk continues the stream named
/// `container+object`.
pub fn plan_put_object(byte_len: usize, is_last: bool, container_id: &str, object_id: &str) -> (r:
    Result<Option<String>, BlobError>)
    ensures
        byte_len == 0 <==> r == Err::<Option<String>, BlobError>(BlobError::EmptyObject),
        byte_len > 0 && is_last ==> (r matches Ok(o) && o is None),
        byte_len > 0 && !is_last ==> (r matches Ok(o) && (o matches Some(s) && s@ == container_id@
            + "+"@ + object_id@)),
{
    if byte_len == 0 {
        return Err(BlobError::EmptyObject);
    }
    if is_last {
        Ok(None)
    } else {
        Ok(Some(container_id.to_owned().concat("+").concat(object_id)))
    }
}

/// One path below another: an absolute `name` stands alone, anything else
/// hangs under `base` with exactly one separator between them.
pub open spec fn spec_join_path(base: Seq<char>, name: Seq<char>) -> Seq<char> {
    if name.len() > 0 && name[0] == '/' {
        name
    } else if base.len() > 0 && base.last() == '/' {
        base + name
    } else {
        base + "/"@ + name
    }
}

/// Joins a path onto a base directory; see [`spec_join_path`].
pub fn join_path(base: &str, name: &str) -> (r: String)
    ensures
        r@ == spec_join_path(base@, name@),
{
    let name_len = name.unicode_len();
    if name_len > 0 && name.get_char(0) == '/' {
        return name.to_owned();
    }
    let base_len = base.unicode_len();
    if base_len > 0 && base.get_char(base_len - 1) == '/' {
        base.to_owned().concat(name)
    } else {
        base.to_owned().concat("/").concat(name)
    }
}

/// The blob root a link configures: the `ROOT` value (or `/tmp`), with the
/// tenant's own directory under it.
pub fn root_for_link(values: &RawValues, actor_id: &str) -> (r: String)
    ensures
        r@ == spec_join_path(
            match spec_first_value(values@, "ROOT"@) {
                Some(v) => v,
                None => "/tmp"@,
            },
            actor_id@,
        ),
{
    let base = match first_value(&values.entries, "ROOT") {
        Some(v) => v.clone(),
        None => "/tmp".to_owned(),
    };
    join_path(base.as_str(), actor_id)
}

/// The bytes of an upload's chunks, in order.
pub open spec fn spec_concat_chunks(chunks: Seq<Seq<u8>>) -> Seq<u8>
    decreases chunks.len(),
{
    if chunks.len() == 0 {
        Seq::empty()
    } else {
        spec_concat_chunks(chunks.drop_last()) + chunks.last()
    }
}

/// Joins an upload's chunks into the object's bytes, in order.
pub fn concat_chunks(chunks: &Vec<Vec<u8>>) -> (r: Vec<u8>)
    ensures
        r@ == spec_concat_chunks(chunks.deep_view()),
{
    let mut out: Vec<u8> = Vec::new();
    let mut i: usize = 0;
    proof {
        assert(chunks.deep_view().take(0) =~= Seq::<Seq<u8>>::empty());
        assert(out@ =~= spec_concat_chunks(chunks.deep_view().take(0)));
    }
    while i < chunks.len()
        invariant
            i <= chunks.len(),
            chunks.deep_view().len() == chunks@.len(),
            out@ == spec_concat_chunks(chunks.deep_view().take(i as int)),
        decreases chunks.len() - i,
    {
        let chunk = &chunks[i];
        let ghost before = out@;
        let mut j: usize = 0;
        while j < chunk.len()
            invariant
                i < chunks@.len(),
                chunk == chunks@[i as int],
                j <= chunk@.len(),
                out@ == before + chunk@.subrange(0, j as int),
            decreases chunk.len() - j,
        {
            out.push(chunk[j]);
            proof {
                assert(out@ =~= before + chunk@.subrange(0, j + 1));
            }
            j = j + 1;
        }
        proof {
            assert(chunk@.subrange(0, chunk@.len() as int) =~= chunk@);
            assert(chunks.deep_view().take(i + 1).drop_last() =~= chunks.deep_view().take(
                i as int,
            ));
            assert(chunks.deep_view().take(i + 1).last() == chunk@);
            assert(out@ =~= spec_concat_chunks(chunks.deep_view().take(i + 1)));
        }
        i = i + 1;
    }
    proof {
        assert(chunks.deep_view().take(chunks.deep_view().len() as int) =~= chunks.deep_view());
    }
    out
}

} // verus!
