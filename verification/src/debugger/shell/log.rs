use vstd::prelude::*;

verus! {

/// The history as plain values: the entries, newest first after the blank one at 0, the
/// most that are kept, and the entry shown.
pub struct LogView {
    pub data: Seq<Seq<char>>,
    pub limit: usize,
    pub index: usize,
}

/// A bounded history of inputs: entry 0 is blank, the newest input follows it, and an
/// index walks through them.
pub struct Log {
    limit: usize,
    data: Vec<String>,
    index: usize,
}

impl View for Log {
    type V = LogView;

    closed spec fn view(&self) -> LogView {
        LogView { data: self.data@.map_values(|s: String| s@), limit: self.limit, index: self.index }
    }
}

/// The history after an input is added: it goes after the blank entry, the index goes
/// back to the blank entry, and the oldest entry leaves when there are more than `limit`.
pub open spec fn spec_push(v: LogView, value: Seq<char>) -> LogView {
    let data = v.data.insert(1, value);
    LogView {
        data: if data.len() > v.limit { data.drop_last() } else { data },
        index: 0,
        ..v
    }
}

/// A history as `Log` keeps it: at least one entry, no more than a `usize` counts, and
/// the index on one of them.
pub open spec fn log_wf(v: LogView) -> bool {
    1 <= v.data.len() <= usize::MAX && v.index < v.data.len()
}

/// The history after a move to the next older entry, if there is one.
pub open spec fn spec_back(v: LogView) -> LogView {
    LogView { index: if v.index + 1 < v.data.len() { (v.index + 1) as usize } else { v.index }, ..v }
}

/// The history after a move to the next newer entry, down to the blank one.
pub open spec fn spec_forward(v: LogView) -> LogView {
    LogView { index: if v.index > 0 { (v.index - 1) as usize } else { 0 }, ..v }
}

impl Log {
    /// There is always an entry shown.
    #[verifier::type_invariant]
    closed spec fn inv(&self) -> bool {
        self.data@.len() >= 1 && self.data@.len() <= usize::MAX && self.index < self.data@.len()
    }

    /// A history with the blank entry only.
    pub fn new(limit: usize) -> (r: Self)
        ensures
            r@.data == seq![Seq::<char>::empty()],
            r@.limit == limit,
            r@.index == 0,
            log_wf(r@),
    {
        let mut data: Vec<String> = Vec::new();
        data.push(String::new());
        let r = Log { limit, data, index: 0 };
        assert(r@.data =~= seq![Seq::<char>::empty()]);
        r
    }

    /// The index of the entry shown.
    pub fn index(&self) -> (r: usize)
        ensures
            r == self@.index,
            log_wf(self@),
    {
        proof {
            use_type_invariant(self);
        }
        self.index
    }

    /// Adds an input.
    pub fn push(&mut self, value: String)
        ensures
            final(self)@ == spec_push(old(self)@, value@),
            log_wf(final(self)@),
    {
        proof {
            use_type_invariant(&*self);
        }
        let ghost target = old(self)@.data.insert(1, value@);
        let n = self.data.len();
        let mut data: Vec<String> = Vec::new();
        data.push(self.data[0].clone());
        data.push(value);
        let mut i: usize = 1;
        while i < n
            invariant
                1 <= i <= n,
                n == self.data@.len(),
                self@ == old(self)@,
                target == self@.data.insert(1, value@),
                data@.map_values(|s: String| s@) == target.take(i + 1),
            decreases n - i,
        {
            let ghost previous = data@;
            data.push(self.data[i].clone());
            assert(data@.map_values(|s: String| s@) =~= previous.map_values(|s: String| s@).push(self@.data[i as int]));
            assert(target.take(i + 2) =~= target.take(i + 1).push(target[i + 1]));
            i = i + 1;
        }
        assert(target.take(n + 1) =~= target);
        if data.len() > self.limit {
            let ghost full = data@;
            data.pop();
            assert(data@.map_values(|s: String| s@) =~= full.map_values(|s: String| s@).drop_last());
        }
        self.data = data;
        self.index = 0;
    }

    /// The entry shown.
    pub fn get(&self) -> (r: Option<&String>)
        ensures
            r matches Some(s) && s@ == self@.data[self@.index as int],
            log_wf(self@),
    {
        proof {
            use_type_invariant(self);
        }
        Some(&self.data[self.index])
    }

    /// Moves to the next older entry, if there is one.
    pub fn back(&mut self)
        ensures
            final(self)@ == spec_back(old(self)@),
            log_wf(final(self)@),
    {
        proof {
            use_type_invariant(&*self);
        }
        let n = self.data.len();
        if self.index + 1 < n {
            self.index = self.index + 1;
        }
    }

    /// Moves to the next newer entry, down to the blank one.
    pub fn forward(&mut self)
        ensures
            final(self)@ == spec_forward(old(self)@),
            log_wf(final(self)@),
    {
        proof {
            use_type_invariant(&*self);
        }
        self.index = if self.index > 0 { self.index - 1 } else { 0 };
    }
}

/// The history never holds more than `limit` entries (one, the blank entry, when the
/// limit is 0), and after a push the newest input follows the blank entry.
pub proof fn lemma_history_bounded(v: LogView, value: Seq<char>)
    requires
        1 <= v.data.len(),
        v.data.len() <= v.limit || v.data.len() == 1,
    ensures
        1 <= spec_push(v, value).data.len(),
        spec_push(v, value).data.len() <= v.limit || spec_push(v, value).data.len() == 1,
        v.limit >= 2 ==> spec_push(v, value).data[1] == value,
        spec_push(v, value).data[0] == v.data[0],
        spec_push(v, value).index == 0,
{
}

/// Moving to an older entry and then to a newer one comes back to the entry first
/// shown, wherever there was an older entry to move to.
pub proof fn lemma_forward_undoes_back(v: LogView)
    requires
        log_wf(v),
        v.index + 1 < v.data.len(),
    ensures
        spec_forward(spec_back(v)) == v,
{
}

} // verus!
