//! Negotiation of an output stream. The device is asked for a stream with a fixed
//! buffer of each candidate size in turn, from the largest down, until one is
//! opened; when every size is rejected, one last request leaves the buffer to the
//! driver. Opening the device is left to the caller: this state machine says
//! which request to make next and what the last answer means.
use vstd::prelude::*;

verus! {

/// One request to open the default output device.
#[derive(Clone, Copy, Debug, PartialEq, Eq)]
pub enum StreamRequest {
    /// A fixed buffer of this many frames.
    Fixed(u32),
    /// The driver's own buffer configuration.
    DriverDefault,
}

/// What follows an answer from the device.
#[derive(Clone, Copy, Debug, PartialEq, Eq)]
pub enum NegotiationStep {
    /// Make this request next. `falling_back` is set when it is the driver-default
    /// request that comes after every fixed size was rejected.
    Retry { request: StreamRequest, falling_back: bool },
    /// The stream was opened by this request.
    Opened(StreamRequest),
    /// The driver-default request was rejected too.
    Exhausted,
}

/// Where a negotiation stands.
#[derive(Clone, Copy, Debug, PartialEq, Eq)]
pub enum NegotiationStatus {
    Pending,
    Opened(StreamRequest),
    Failed,
}

/// The buffer sizes tried, in frames, in the order they are tried.
pub open spec fn default_ladder() -> Seq<u32> {
    seq![16384u32, 8192u32, 4096u32]
}

/// A ladder of buffer sizes: not empty, every size positive, strictly descending.
pub open spec fn valid_ladder(ladder: Seq<u32>) -> bool {
    &&& ladder.len() > 0
    &&& forall|i: int| 0 <= i < ladder.len() ==> ladder[i] > 0
    &&& forall|i: int, j: int| 0 <= i < j < ladder.len() ==> ladder[i] > ladder[j]
}

/// The request made after `rejected` requests were rejected.
pub open spec fn request_at(ladder: Seq<u32>, rejected: int) -> StreamRequest {
    if rejected < ladder.len() {
        StreamRequest::Fixed(ladder[rejected])
    } else {
        StreamRequest::DriverDefault
    }
}

/// The outcome of a negotiation from the point where `rejected` requests were
/// rejected, with a device that accepts exactly the requests `accepts` admits.
pub open spec fn outcome_from(
    ladder: Seq<u32>,
    accepts: spec_fn(StreamRequest) -> bool,
    rejected: nat,
) -> NegotiationStatus
    decreases ladder.len() + 1 - rejected,
{
    if rejected > ladder.len() {
        NegotiationStatus::Failed
    } else if accepts(request_at(ladder, rejected as int)) {
        NegotiationStatus::Opened(request_at(ladder, rejected as int))
    } else {
        outcome_from(ladder, accepts, rejected + 1)
    }
}

/// The outcome of a whole negotiation with a device that accepts exactly the
/// requests `accepts` admits.
pub open spec fn outcome(ladder: Seq<u32>, accepts: spec_fn(StreamRequest) -> bool) -> NegotiationStatus {
    outcome_from(ladder, accepts, 0)
}

/// The buffer sizes to try, in frames, largest first.
pub fn stream_buffer_frame_sizes() -> (r: Vec<u32>)
    ensures
        r@ == default_ladder(),
        valid_ladder(r@),
{
    let r: Vec<u32> = vec![16_384, 8_192, 4_096];
    assert(r@ =~= default_ladder());
    r
}

/// Whether a ladder of buffer sizes is non-empty, positive and strictly descending.
pub fn is_valid_ladder(ladder: &Vec<u32>) -> (r: bool)
    ensures
        r == valid_ladder(ladder@),
{
    if ladder.len() == 0 {
        return false;
    }
    let mut i: usize = 0;
    while i < ladder.len()
        invariant
            0 < ladder.len(),
            i <= ladder.len(),
            forall|k: int| 0 <= k < i ==> ladder@[k] > 0,
            forall|a: int, b: int| 0 <= a < b < ladder.len() && b <= i ==> ladder@[a] > ladder@[b],
        decreases ladder.len() - i,
    {
        if ladder[i] == 0 {
            return false;
        }
        if i + 1 < ladder.len() && ladder[i] <= ladder[i + 1] {
            assert(!(ladder@[i as int] > ladder@[i + 1]));
            return false;
        }
        proof {
            assert forall|a: int, b: int| 0 <= a < b < ladder.len() && b <= i + 1 implies ladder@[a]
                > ladder@[b] by {
                if b == i + 1 && a < i {
                    assert(ladder@[a] > ladder@[i as int]);
                }
            }
        }
        i += 1;
    }
    true
}

/// Every fixed size is requested before every smaller one, and the driver-default
/// request comes only after every fixed size.
pub proof fn lemma_requests_descend(ladder: Seq<u32>, i: int, j: int)
    requires
        valid_ladder(ladder),
        0 <= i < j <= ladder.len(),
    ensures
        request_at(ladder, i) matches StreamRequest::Fixed(a) && match request_at(ladder, j) {
            StreamRequest::Fixed(b) => a > b,
            StreamRequest::DriverDefault => j == ladder.len(),
        },
{
}

proof fn lemma_first_success_from(
    ladder: Seq<u32>,
    accepts: spec_fn(StreamRequest) -> bool,
    k: nat,
    m: nat,
)
    requires
        m <= k <= ladder.len(),
        accepts(request_at(ladder, k as int)),
        forall|i: int| 0 <= i < k ==> !accepts(#[trigger] request_at(ladder, i)),
    ensures
        outcome_from(ladder, accepts, m) == NegotiationStatus::Opened(request_at(ladder, k as int)),
    decreases k - m,
{
    if m < k {
        assert(!accepts(request_at(ladder, m as int)));
        lemma_first_success_from(ladder, accepts, k, m + 1);
    }
}

/// The negotiation stops at the first success: when the request made after `k`
/// rejections is the first one the device accepts, it is the one that opens the
/// stream.
pub proof fn lemma_first_success_opens(
    ladder: Seq<u32>,
    accepts: spec_fn(StreamRequest) -> bool,
    k: nat,
)
    requires
        k <= ladder.len(),
        accepts(request_at(ladder, k as int)),
        forall|i: int| 0 <= i < k ==> !accepts(#[trigger] request_at(ladder, i)),
    ensures
        outcome(ladder, accepts) == NegotiationStatus::Opened(request_at(ladder, k as int)),
{
    lemma_first_success_from(ladder, accepts, k, 0);
}

proof fn lemma_healthy_from(ladder: Seq<u32>, accepts: spec_fn(StreamRequest) -> bool, m: nat)
    requires
        m <= ladder.len(),
        accepts(StreamRequest::DriverDefault),
    ensures
        outcome_from(ladder, accepts, m) is Opened,
    decreases ladder.len() - m,
{
    if m < ladder.len() {
        lemma_healthy_from(ladder, accepts, m + 1);
    }
}

/// A device that accepts the driver-default request always ends up giving a
/// stream, whatever it does with the fixed sizes.
pub proof fn lemma_healthy_device_opens(ladder: Seq<u32>, accepts: spec_fn(StreamRequest) -> bool)
    requires
        accepts(StreamRequest::DriverDefault),
    ensures
        outcome(ladder, accepts) is Opened,
{
    lemma_healthy_from(ladder, accepts, 0);
}

/// A negotiation whose answers so far all came from a device that accepts exactly
/// the requests `accepts` admits: while pending it is bound for `outcome`, and once
/// over it stands at `outcome`.
pub open spec fn tracks(
    ladder: Seq<u32>,
    rejected: nat,
    status: NegotiationStatus,
    accepts: spec_fn(StreamRequest) -> bool,
) -> bool {
    if status == NegotiationStatus::Pending {
        outcome_from(ladder, accepts, rejected) == outcome(ladder, accepts)
    } else {
        status == outcome(ladder, accepts)
    }
}

/// A negotiation in progress over a ladder of buffer sizes.
pub struct StreamNegotiation {
    ladder: Vec<u32>,
    rejected: usize,
    status: NegotiationStatus,
}

impl StreamNegotiation {
    /// The buffer sizes, largest first.
    pub closed spec fn ladder(&self) -> Seq<u32> {
        self.ladder@
    }

    /// How many requests were rejected so far.
    pub closed spec fn rejected(&self) -> nat {
        match self.status {
            NegotiationStatus::Failed => self.rejected as nat + 1,
            _ => self.rejected as nat,
        }
    }

    /// Where the negotiation stands.
    pub closed spec fn status(&self) -> NegotiationStatus {
        self.status
    }

    /// The ladder is valid, and the count of rejections stays within the ladder's
    /// length plus the driver-default request.
    pub closed spec fn wf(&self) -> bool {
        &&& valid_ladder(self.ladder@)
        &&& self.rejected <= self.ladder.len()
        &&& self.status == NegotiationStatus::Failed ==> self.rejected == self.ladder.len()
    }

    /// What well-formedness gives a caller: the ladder is valid; a pending or
    /// opened negotiation has had at most one rejection per fixed size; a failed
    /// one has had every fixed size and the driver default rejected.
    pub proof fn lemma_wf_bounds(&self)
        requires
            self.wf(),
        ensures
            valid_ladder(self.ladder()),
            self.status() != NegotiationStatus::Failed ==> self.rejected() <= self.ladder().len(),
            self.status() == NegotiationStatus::Failed ==> self.rejected() == self.ladder().len() + 1,
    {
    }

    /// Starts a negotiation over `ladder`, or gives `None` when the ladder is empty,
    /// holds a zero or is not strictly descending.
    pub fn new(ladder: Vec<u32>) -> (r: Option<Self>)
        ensures
            r is Some <==> valid_ladder(ladder@),
            r matches Some(n) ==> n.wf() && n.ladder() == ladder@ && n.rejected() == 0
                && n.status() == NegotiationStatus::Pending,
            r matches Some(n) ==> forall|accepts: spec_fn(StreamRequest) -> bool|
                #[trigger] tracks(n.ladder(), n.rejected(), n.status(), accepts),
    {
        if is_valid_ladder(&ladder) {
            Some(StreamNegotiation { ladder, rejected: 0, status: NegotiationStatus::Pending })
        } else {
            None
        }
    }

    /// Starts a negotiation over the standard buffer sizes.
    pub fn standard() -> (r: Self)
        ensures
            r.wf(),
            r.ladder() == default_ladder(),
            r.rejected() == 0,
            r.status() == NegotiationStatus::Pending,
            forall|accepts: spec_fn(StreamRequest) -> bool|
                #[trigger] tracks(r.ladder(), r.rejected(), r.status(), accepts),
    {
        let ladder = stream_buffer_frame_sizes();
        StreamNegotiation { ladder, rejected: 0, status: NegotiationStatus::Pending }
    }

    /// The request to make now, or `None` once the negotiation is over.
    pub fn pending_request(&self) -> (r: Option<StreamRequest>)
        requires
            self.wf(),
        ensures
            self.status() == NegotiationStatus::Pending ==> r == Some(
                request_at(self.ladder(), self.rejected() as int),
            ),
            self.status() != NegotiationStatus::Pending ==> r is None,
    {
        match self.status {
            NegotiationStatus::Pending => Some(self.current_request()),
            _ => None,
        }
    }

    fn current_request(&self) -> (r: StreamRequest)
        requires
            self.wf(),
            self.status() != NegotiationStatus::Failed,
        ensures
            r == request_at(self.ladder(), self.rejected() as int),
    {
        if self.rejected < self.ladder.len() {
            StreamRequest::Fixed(self.ladder[self.rejected])
        } else {
            StreamRequest::DriverDefault
        }
    }

    /// Records the device's answer to the pending request: `opened` is whether it
    /// gave a stream. An accepted request ends the negotiation at once; a rejected
    /// one moves to the next smaller size, then to the driver default, then to
    /// failure.
    pub fn report(&mut self, opened: bool) -> (r: NegotiationStep)
        requires
            old(self).wf(),
            old(self).status() == NegotiationStatus::Pending,
        ensures
            final(self).wf(),
            final(self).ladder() == old(self).ladder(),
            opened ==> {
                &&& final(self).rejected() == old(self).rejected()
                &&& final(self).status() == NegotiationStatus::Opened(
                    request_at(old(self).ladder(), old(self).rejected() as int),
                )
                &&& r == NegotiationStep::Opened(
                    request_at(old(self).ladder(), old(self).rejected() as int),
                )
            },
            !opened ==> final(self).rejected() == old(self).rejected() + 1,
            !opened && final(self).rejected() <= final(self).ladder().len() ==> {
                &&& final(self).status() == NegotiationStatus::Pending
                &&& r == (NegotiationStep::Retry {
                    request: request_at(final(self).ladder(), final(self).rejected() as int),
                    falling_back: final(self).rejected() == final(self).ladder().len(),
                })
            },
            !opened && final(self).rejected() > final(self).ladder().len() ==> {
                &&& final(self).status() == NegotiationStatus::Failed
                &&& r == NegotiationStep::Exhausted
            },
            forall|accepts: spec_fn(StreamRequest) -> bool|
                tracks(old(self).ladder(), old(self).rejected(), old(self).status(), accepts)
                    && opened == accepts(request_at(old(self).ladder(), old(self).rejected() as int))
                    ==> #[trigger] tracks(
                    final(self).ladder(),
                    final(self).rejected(),
                    final(self).status(),
                    accepts,
                ),
    {
        let request = self.current_request();
        if opened {
            self.status = NegotiationStatus::Opened(request);
            return NegotiationStep::Opened(request);
        }
        if self.rejected < self.ladder.len() {
            self.rejected = self.rejected + 1;
            let next = self.current_request();
            NegotiationStep::Retry { request: next, falling_back: self.rejected == self.ladder.len() }
        } else {
            self.status = NegotiationStatus::Failed;
            NegotiationStep::Exhausted
        }
    }
}

} // verus!
