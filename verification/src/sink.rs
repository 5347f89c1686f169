//! Output sinks: streamed content and out-of-band status notifications.
//!
//! A sink decides what gets dispatched to the host thread; the host-side
//! plumbing performs each dispatch in order and reports failures. `write`
//! yields the ordered run of chunks to deliver to the stream callback;
//! `write_status` yields at most one payload for the status callback.

use crate::chunk::chunk_content;
use crate::chunk::chunk_views;
use crate::chunk::spec_chunks;
use crate::errors::BridgeError;
use vstd::prelude::*;

verus! {

/// The dispatch plan for one written string: a single piece carrying the
/// whole content when no maximum is configured, else its chunks.
pub open spec fn spec_plan(content: Seq<char>, max_chunk_size: Option<usize>) -> Seq<Seq<char>> {
    match max_chunk_size {
        None => seq![content],
        Some(k) => spec_chunks(content, k as int),
    }
}

/// Concatenating a dispatch plan in order reproduces the written content
/// exactly, whatever the chunk configuration.
pub proof fn lemma_plan_reassemble(content: Seq<char>, max_chunk_size: Option<usize>)
    requires
        max_chunk_size matches Some(k) ==> k >= 1,
    ensures
        spec_plan(content, max_chunk_size).flatten() == content,
{
    match max_chunk_size {
        None => {
            seq![content].lemma_flatten_one_element();
        },
        Some(k) => {
            crate::chunk::lemma_chunks_reassemble(content, k as int);
        },
    }
}

/// Split one written string according to the configured maximum chunk size.
pub fn dispatch_plan(content: &str, max_chunk_size: Option<usize>) -> (plan: Vec<String>)
    requires
        max_chunk_size matches Some(k) ==> k >= 1,
    ensures
        chunk_views(plan@) == spec_plan(content@, max_chunk_size),
        chunk_views(plan@).flatten() == content@,
{
    proof {
        lemma_plan_reassemble(content@, max_chunk_size);
    }
    match max_chunk_size {
        None => {
            let mut plan: Vec<String> = Vec::new();
            plan.push(content.to_owned());
            proof {
                assert(chunk_views(plan@) =~= seq![content@]);
            }
            plan
        },
        Some(k) => chunk_content(content, k),
    }
}

/// A sink whose backing resource is a named flat file under a base
/// directory; reading it back is the host side's concern.
pub struct NoteIO {
    id: String,
    resources_path: String,
    has_status_callback: bool,
    max_chunk_size: Option<usize>,
}

/// A sink that buffers everything written into an in-memory accumulator.
pub struct CallbackIO {
    id: String,
    has_status_callback: bool,
    max_chunk_size: Option<usize>,
    buffer: String,
}

/// What `write_status` asks the host side to do: nothing when no status
/// callback is registered, else one dispatch of the serialized status.
pub open spec fn status_plan_ok(
    has_status_callback: bool,
    status: Seq<char>,
    dispatch: Option<String>,
) -> bool {
    match dispatch {
        None => !has_status_callback,
        Some(p) => has_status_callback && p@ == status,
    }
}

impl NoteIO {
    /// A configured maximum chunk size is never zero.
    pub closed spec fn wf(&self) -> bool {
        self.max_chunk_size matches Some(k) ==> k >= 1
    }

    /// The maximum chunk size this sink was configured with.
    pub closed spec fn spec_max_chunk_size(&self) -> Option<usize> {
        self.max_chunk_size
    }

    /// Whether a status callback was registered at construction.
    pub closed spec fn spec_has_status_callback(&self) -> bool {
        self.has_status_callback
    }

    /// The identifier naming this sink's backing resource.
    pub closed spec fn spec_id(&self) -> Seq<char> {
        self.id@
    }

    /// The base directory of the backing resource.
    pub closed spec fn spec_resources_path(&self) -> Seq<char> {
        self.resources_path@
    }

    pub fn new(
        resources_path: &str,
        id: String,
        has_status_callback: bool,
        max_chunk_size: Option<usize>,
    ) -> (r: Result<Self, BridgeError>)
        requires
            max_chunk_size matches Some(k) ==> k >= 1,
        ensures
            r matches Ok(s) && s.wf() && s.spec_id() == id@ && s.spec_resources_path()
                == resources_path@ && s.spec_has_status_callback() == has_status_callback
                && s.spec_max_chunk_size() == max_chunk_size,
    {
        Ok(NoteIO {
            id,
            resources_path: resources_path.to_owned(),
            has_status_callback,
            max_chunk_size,
        })
    }

    pub fn get_id(&self) -> (r: String)
        ensures
            r@ == self.spec_id(),
    {
        self.id.clone()
    }

    /// The ordered chunks one written string is delivered as.
    pub fn write(&self, content: &str) -> (plan: Vec<String>)
        requires
            self.wf(),
        ensures
            chunk_views(plan@) == spec_plan(content@, self.spec_max_chunk_size()),
            chunk_views(plan@).flatten() == content@,
    {
        dispatch_plan(content, self.max_chunk_size)
    }

    /// At most one dispatch for a serialized status; none when no status
    /// callback is registered, which is success, not an error.
    pub fn write_status(&self, status: &str) -> (dispatch: Option<String>)
        ensures
            status_plan_ok(self.spec_has_status_callback(), status@, dispatch),
    {
        if self.has_status_callback {
            Some(status.to_owned())
        } else {
            None
        }
    }

    /// Clearing the backing resource is deliberately not wired to storage:
    /// a no-op that reports success.
    pub fn clear(&self) -> (r: Result<(), BridgeError>)
        ensures
            r is Ok,
    {
        Ok(())
    }
}

impl CallbackIO {
    /// A configured maximum chunk size is never zero.
    pub closed spec fn wf(&self) -> bool {
        self.max_chunk_size matches Some(k) ==> k >= 1
    }

    /// The maximum chunk size this sink was configured with.
    pub closed spec fn spec_max_chunk_size(&self) -> Option<usize> {
        self.max_chunk_size
    }

    /// Whether a status callback was registered at construction.
    pub closed spec fn spec_has_status_callback(&self) -> bool {
        self.has_status_callback
    }

    /// This sink's identifier.
    pub closed spec fn spec_id(&self) -> Seq<char> {
        self.id@
    }

    /// Everything written since construction or the last `clear`.
    pub closed spec fn spec_buffer(&self) -> Seq<char> {
        self.buffer@
    }

    pub fn new(id: String, has_status_callback: bool, max_chunk_size: Option<usize>) -> (r: Result<
        Self,
        BridgeError,
    >)
        requires
            max_chunk_size matches Some(k) ==> k >= 1,
        ensures
            r matches Ok(s) && s.wf() && s.spec_id() == id@ && s.spec_has_status_callback()
                == has_status_callback && s.spec_max_chunk_size() == max_chunk_size
                && s.spec_buffer() == Seq::<char>::empty(),
    {
        Ok(CallbackIO { id, has_status_callback, max_chunk_size, buffer: String::new() })
    }

    pub fn get_id(&self) -> (r: String)
        ensures
            r@ == self.spec_id(),
    {
        self.id.clone()
    }

    /// A snapshot of the accumulator.
    pub fn content(&self) -> (r: String)
        ensures
            r@ == self.spec_buffer(),
    {
        self.buffer.clone()
    }

    /// Append the content to the accumulator, then hand back the chunks to
    /// dispatch. The append happens whatever later becomes of the dispatch,
    /// so the content is observable through `read` even if delivery fails;
    /// the accumulator grows by the written content regardless of chunking.
    pub fn write(&mut self, content: &str) -> (plan: Vec<String>)
        requires
            old(self).wf(),
        ensures
            final(self).spec_buffer() == old(self).spec_buffer() + content@,
            final(self).spec_id() == old(self).spec_id(),
            final(self).spec_has_status_callback() == old(self).spec_has_status_callback(),
            final(self).spec_max_chunk_size() == old(self).spec_max_chunk_size(),
            final(self).wf(),
            chunk_views(plan@) == spec_plan(content@, old(self).spec_max_chunk_size()),
            chunk_views(plan@).flatten() == content@,
    {
        self.buffer.append(content);
        dispatch_plan(content, self.max_chunk_size)
    }

    /// At most one dispatch for a serialized status; none when no status
    /// callback is registered, which is success, not an error.
    pub fn write_status(&self, status: &str) -> (dispatch: Option<String>)
        ensures
            status_plan_ok(self.spec_has_status_callback(), status@, dispatch),
    {
        if self.has_status_callback {
            Some(status.to_owned())
        } else {
            None
        }
    }

    /// A snapshot of the accumulator, as the reading side sees it.
    pub fn read(&self) -> (r: Result<String, BridgeError>)
        ensures
            r matches Ok(c) && c@ == self.spec_buffer(),
    {
        Ok(self.content())
    }

    /// Empty the accumulator.
    pub fn clear(&mut self) -> (r: Result<(), BridgeError>)
        ensures
            r is Ok,
            final(self).spec_buffer() == Seq::<char>::empty(),
            final(self).spec_id() == old(self).spec_id(),
            final(self).spec_has_status_callback() == old(self).spec_has_status_callback(),
            final(self).spec_max_chunk_size() == old(self).spec_max_chunk_size(),
            final(self).wf() == old(self).wf(),
    {
        self.buffer = String::new();
        Ok(())
    }
}

} // verus!
