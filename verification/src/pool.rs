//! A pool of upload URLs that can be used to upload files in parallel,
//! reusing the same URLs, and reducing the number of requests to the B2 API.
//!
//! The pool here is the book that says who may hold a URL: how many are out,
//! how many may be out at most, and which ones lie idle. Waiting for a URL to
//! come back is left to the caller.

use crate::upload_url::UploadUrl;
use std::collections::VecDeque;
use vstd::prelude::*;

verus! {

/// The greatest capacity that a pool can have.
pub const MAX_POOL_SIZE: usize = usize::MAX >> 3;

/// The answer to a request for a URL.
#[derive(Debug)]
pub enum Acquired {
    /// As many URLs are out as the pool allows: wait until one comes back.
    Wait,
    /// A URL that lay idle in the pool; it counts as out now.
    Reuse(UploadUrl),
    /// No URL lay idle: get a new one from the service. It counts as out
    /// already.
    Fetch,
}

/// A pool of `UploadUrl`s.
///
/// The number of URLs that are out at one time is limited by the capacity
/// passed to [`Pool::new`].
#[derive(Debug)]
pub struct Pool {
    bucket_id: Option<String>,
    capacity: usize,
    outstanding: usize,
    urls: VecDeque<UploadUrl>,
}

impl Pool {
    /// No more URLs are out than the capacity allows, and those out and those
    /// idle are together no more than the capacity.
    pub closed spec fn wf(&self) -> bool {
        &&& self.capacity <= MAX_POOL_SIZE
        &&& self.outstanding + self.urls@.len() <= self.capacity
    }

    /// Number of URLs that may be out at one time.
    pub closed spec fn spec_capacity(&self) -> nat {
        self.capacity as nat
    }

    /// Number of URLs that are out.
    pub closed spec fn spec_outstanding(&self) -> nat {
        self.outstanding as nat
    }

    /// The URLs that lie idle, the one that came back first at the front.
    pub closed spec fn spec_idle(&self) -> Seq<UploadUrl> {
        self.urls@
    }

    /// The bucket that the pool's URLs upload to; `None` for the default
    /// bucket of the authorized account.
    pub closed spec fn spec_bucket_id(&self) -> Option<String> {
        self.bucket_id
    }

    /// Creates a new pool for the given bucket ID.
    ///
    /// If `bucket_id` is `None`, the pool will use the default bucket for the authorized account.
    pub fn new(bucket_id: Option<&str>, max_urls: u8) -> (pool: Self)
        ensures
            pool.wf(),
            pool.spec_capacity() == max_urls,
            pool.spec_outstanding() == 0,
            pool.spec_idle() == Seq::<UploadUrl>::empty(),
            match bucket_id {
                Some(id) => pool.spec_bucket_id() matches Some(own) && own@ == id@,
                None => pool.spec_bucket_id() is None,
            },
    {
        let bucket_id = match bucket_id {
            Some(id) => Some(id.to_owned()),
            None => None,
        };
        let widest: usize = usize::MAX;
        assert(widest >> 3 >= 255) by (bit_vector)
            requires
                widest >= 0xffff_ffffusize,
        ;
        Pool { bucket_id, capacity: max_urls as usize, outstanding: 0, urls: VecDeque::new() }
    }

    /// The bucket that the pool's URLs upload to.
    pub fn bucket_id(&self) -> (id: &Option<String>)
        ensures
            *id == self.spec_bucket_id(),
    {
        &self.bucket_id
    }

    /// Number of URLs that are out.
    pub fn outstanding(&self) -> (n: usize)
        ensures
            n == self.spec_outstanding(),
    {
        self.outstanding
    }

    /// Number of URLs that may be out at one time.
    pub fn capacity(&self) -> (n: usize)
        ensures
            n == self.spec_capacity(),
    {
        self.capacity
    }

    /// Whether a URL can go out now: whether fewer are out than the capacity
    /// allows.
    pub fn has_room(&self) -> (room: bool)
        ensures
            room == (self.spec_outstanding() < self.spec_capacity()),
    {
        self.outstanding < self.capacity
    }

    /// Asks for a URL. Below capacity the caller gets one: the idle URL that
    /// came back first, or leave to fetch a new one. At capacity the caller
    /// has to wait, and the pool is left as it is.
    pub fn get_pooled_upload_url(&mut self) -> (acquired: Acquired)
        requires
            old(self).wf(),
        ensures
            final(self).wf(),
            final(self).spec_capacity() == old(self).spec_capacity(),
            final(self).spec_bucket_id() == old(self).spec_bucket_id(),
            final(self).spec_outstanding() <= final(self).spec_capacity(),
            match acquired {
                Acquired::Wait => {
                    &&& old(self).spec_outstanding() == old(self).spec_capacity()
                    &&& final(self).spec_outstanding() == old(self).spec_outstanding()
                    &&& final(self).spec_idle() == old(self).spec_idle()
                },
                Acquired::Reuse(url) => {
                    &&& old(self).spec_outstanding() < old(self).spec_capacity()
                    &&& old(self).spec_idle().len() > 0
                    &&& url == old(self).spec_idle()[0]
                    &&& final(self).spec_idle() == old(self).spec_idle().subrange(
                        1,
                        old(self).spec_idle().len() as int,
                    )
                    &&& final(self).spec_outstanding() == old(self).spec_outstanding() + 1
                },
                Acquired::Fetch => {
                    &&& old(self).spec_outstanding() < old(self).spec_capacity()
                    &&& old(self).spec_idle().len() == 0
                    &&& final(self).spec_idle() == old(self).spec_idle()
                    &&& final(self).spec_outstanding() == old(self).spec_outstanding() + 1
                },
            },
    {
        if self.outstanding >= self.capacity {
            return Acquired::Wait;
        }
        match self.urls.pop_front() {
            Some(url) => {
                self.outstanding = self.outstanding + 1;
                Acquired::Reuse(url)
            },
            None => {
                self.outstanding = self.outstanding + 1;
                Acquired::Fetch
            },
        }
    }

    /// Takes back a URL that was out: it goes to the end of the idle queue,
    /// and one more URL may go out. A URL that the pool has no record of
    /// having given out is dropped.
    pub fn release(&mut self, url: UploadUrl)
        requires
            old(self).wf(),
        ensures
            final(self).wf(),
            final(self).spec_capacity() == old(self).spec_capacity(),
            final(self).spec_bucket_id() == old(self).spec_bucket_id(),
            old(self).spec_outstanding() > 0 ==> {
                &&& final(self).spec_outstanding() == old(self).spec_outstanding() - 1
                &&& final(self).spec_idle() == old(self).spec_idle().push(url)
            },
            old(self).spec_outstanding() == 0 ==> {
                &&& final(self).spec_outstanding() == 0
                &&& final(self).spec_idle() == old(self).spec_idle()
            },
    {
        if self.outstanding > 0 {
            self.outstanding = self.outstanding - 1;
            self.urls.push_back(url);
        }
    }

    /// Gives up a URL that was out without handing it back, as when fetching
    /// it failed: one more URL may go out.
    pub fn forfeit(&mut self)
        requires
            old(self).wf(),
        ensures
            final(self).wf(),
            final(self).spec_capacity() == old(self).spec_capacity(),
            final(self).spec_bucket_id() == old(self).spec_bucket_id(),
            final(self).spec_idle() == old(self).spec_idle(),
            final(self).spec_outstanding() == if old(self).spec_outstanding() > 0 {
                old(self).spec_outstanding() - 1
            } else {
                0
            },
    {
        if self.outstanding > 0 {
            self.outstanding = self.outstanding - 1;
        }
    }

    /// Increases the size of the pool by the given amount.
    ///
    /// Should be used carefully. This is irreversible.
    pub fn increase_pool_size(&mut self, size: usize)
        requires
            old(self).wf(),
            old(self).spec_capacity() + size <= MAX_POOL_SIZE,
        ensures
            final(self).wf(),
            final(self).spec_capacity() == old(self).spec_capacity() + size,
            final(self).spec_outstanding() == old(self).spec_outstanding(),
            final(self).spec_idle() == old(self).spec_idle(),
            final(self).spec_bucket_id() == old(self).spec_bucket_id(),
    {
        self.capacity = self.capacity + size;
    }
}

/// At no time are more URLs out than the pool's capacity allows, whatever
/// was asked of the pool before.
pub proof fn lemma_pool_never_over_capacity(pool: Pool)
    requires
        pool.wf(),
    ensures
        pool.spec_outstanding() <= pool.spec_capacity(),
        pool.spec_outstanding() + pool.spec_idle().len() <= pool.spec_capacity(),
{
}

} // verus!
