//! The buffer through which blobs are read from and written to the storage.
use vstd::prelude::*;

verus! {

/// The default size of the buffer, and with it of the largest blob.
pub const KV_BLOB_BUF_SIZE: usize = 4096;

/// `data`, filled up with zeroes to the given size.
pub open spec fn filled_up(data: Seq<u8>, size: nat) -> Seq<u8> {
    Seq::new(
        size,
        |i: int|
            if i < data.len() {
                data[i]
            } else {
                0u8
            },
    )
}

/// A buffer of `S` bytes for the KV blob store, which is used to read and write blobs from the
/// storage.
///
/// At most one instance of it is handed out at a time.
pub struct MatterKvBlobStoreBuf<const S: usize> {
    inner: Option<Vec<u8>>,
}

impl<const S: usize> MatterKvBlobStoreBuf<S> {
    /// The contents of the buffer, or `None` while an instance of it is handed out.
    pub closed spec fn contents(&self) -> Option<Seq<u8>> {
        match self.inner {
            Some(buf) => Some(buf@),
            None => None,
        }
    }

    /// The buffer has not outgrown its size.
    pub open spec fn wf(&self) -> bool {
        self.contents() is Some ==> self.contents()->0.len() <= S
    }

    /// Create a new, empty buffer.
    pub fn new() -> (r: Self)
        ensures
            r.wf(),
            r.contents() == Some(Seq::<u8>::empty()),
    {
        MatterKvBlobStoreBuf { inner: Some(Vec::new()) }
    }

    /// Return `true` unless the buffer is handed out.
    pub fn is_available(&self) -> (r: bool)
        ensures
            r == (self.contents() is Some),
    {
        self.inner.is_some()
    }

    /// Hand out the buffer at its full size, unless it is handed out already.
    ///
    /// It holds what its last user left in it, and zeroes behind that.
    pub fn try_get(&mut self) -> (r: Option<MatterKvBlobStoreBufInstance>)
        requires
            old(self).wf(),
        ensures
            final(self).wf(),
            final(self).contents() is None,
            match old(self).contents() {
                Some(data) => {
                    &&& r is Some
                    &&& r->0@ == filled_up(data, S as nat)
                    &&& r->0@.len() == S
                    &&& forall|i: int| 0 <= i < data.len() ==> #[trigger] r->0@[i] == data[i]
                    &&& forall|i: int| data.len() <= i < S ==> #[trigger] r->0@[i] == 0
                },
                None => r is None,
            },
    {
        let mut buf: Vec<u8> = match self.inner.take() {
            Some(buf) => buf,
            None => return None,
        };
        let ghost data = buf@;
        while buf.len() < S
            invariant
                data.len() <= buf@.len() <= S,
                forall|i: int|
                    0 <= i < buf@.len() ==> #[trigger] buf@[i] == if i < data.len() {
                        data[i]
                    } else {
                        0u8
                    },
            decreases S - buf.len(),
        {
            buf.push(0);
        }
        assert(buf@ =~= filled_up(data, S as nat));
        Some(MatterKvBlobStoreBufInstance(buf))
    }

    /// Take back an instance that was handed out.
    pub fn put_back(&mut self, instance: MatterKvBlobStoreBufInstance)
        requires
            old(self).contents() is None,
            instance@.len() == S,
        ensures
            final(self).wf(),
            final(self).contents() == Some(instance@),
    {
        self.inner = Some(instance.0);
    }
}

/// An instance of the KV blob store buffer, which is used to read and write blobs from the storage.
pub struct MatterKvBlobStoreBufInstance(Vec<u8>);

impl MatterKvBlobStoreBufInstance {
    /// The bytes of the buffer.
    pub closed spec fn view(&self) -> Seq<u8> {
        self.0@
    }

    /// Borrow the bytes of the buffer.
    pub fn borrow(&self) -> (r: &[u8])
        ensures
            r@ == self@,
    {
        self.0.as_slice()
    }

    /// Borrow the bytes of the buffer mutably.
    pub fn borrow_mut(&mut self) -> (r: &mut [u8])
        ensures
            r@ == old(self)@,
            final(self)@ == final(r)@,
    {
        self.0.as_mut_slice()
    }
}

/// Filling up keeps what is there, adds only zeroes behind it, and goes up to the given size.
pub proof fn lemma_filling_up_adds_zeroes(data: Seq<u8>, size: nat, i: int)
    requires
        data.len() <= size,
        0 <= i < size,
    ensures
        filled_up(data, size).len() == size,
        i < data.len() ==> filled_up(data, size)[i] == data[i],
        data.len() <= i ==> filled_up(data, size)[i] == 0,
        filled_up(filled_up(data, size), size) == filled_up(data, size),
{
    lemma_contents_are_kept(filled_up(data, size), size);
}

/// What one user of the buffer leaves in it, the next one finds there.
pub proof fn lemma_contents_are_kept(data: Seq<u8>, size: nat)
    requires
        data.len() == size,
    ensures
        filled_up(data, size) == data,
{
    assert(filled_up(data, size) =~= data);
}

} // verus!
