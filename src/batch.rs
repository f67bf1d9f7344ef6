use vstd::prelude::*;

verus! {

/// One log line as it is handed to a sink: its text, without the line
/// terminator, and the moment it was read, in milliseconds since the Unix epoch.
pub struct LogEntry {
    content: String,
    timestamp_millis: i64,
}

impl LogEntry {
    pub closed spec fn text(&self) -> Seq<char> {
        self.content@
    }

    pub closed spec fn time(&self) -> i64 {
        self.timestamp_millis
    }

    pub fn new(content: String, timestamp_millis: i64) -> (r: LogEntry)
        ensures
            r.text() == content@,
            r.time() == timestamp_millis,
    {
        LogEntry { content, timestamp_millis }
    }

    pub fn content(&self) -> (r: &str)
        ensures
            r@ == self.text(),
    {
        self.content.as_str()
    }

    pub fn timestamp_millis(&self) -> (r: i64)
        ensures
            r == self.time(),
    {
        self.timestamp_millis
    }

    /// Size of the entry's text in bytes of UTF-8.
    pub fn byte_size(&self) -> (r: usize)
        ensures
            r == text_bytes(self.text()),
    {
        self.content.as_str().as_bytes().len()
    }
}

/// Size of a text in bytes of UTF-8.
pub open spec fn text_bytes(t: Seq<char>) -> nat {
    vstd::utf8::encode_utf8(t).len()
}

/// Total size of the texts of a batch.
pub open spec fn batch_bytes(b: Seq<Seq<char>>) -> nat
    decreases b.len(),
{
    if b.len() == 0 {
        0
    } else {
        batch_bytes(b.drop_last()) + text_bytes(b.last())
    }
}

/// The texts of a sequence of entries.
pub open spec fn texts(es: Seq<LogEntry>) -> Seq<Seq<char>> {
    es.map_values(|e: LogEntry| e.text())
}

/// The texts of a sequence of batches.
pub open spec fn batch_texts(bs: Seq<Vec<LogEntry>>) -> Seq<Seq<Seq<char>>> {
    bs.map_values(|b: Vec<LogEntry>| texts(b@))
}

/// All items of a sequence of batches, in order.
pub open spec fn concat<A>(bs: Seq<Seq<A>>) -> Seq<A>
    decreases bs.len(),
{
    if bs.len() == 0 {
        Seq::empty()
    } else {
        concat(bs.drop_last()) + bs.last()
    }
}

/// Whether `t` joins the open batch: always when the batch is empty, else only
/// when neither the count bound nor the byte bound would be passed.
pub open spec fn admits(open: Seq<Seq<char>>, t: Seq<char>, max_entries: nat, max_bytes: nat) -> bool {
    open.len() == 0 || (open.len() + 1 <= max_entries && batch_bytes(open) + text_bytes(t)
        <= max_bytes)
}

/// The sealed batches and the open batch after the texts `ts` have been
/// offered one by one.
pub open spec fn assemble(ts: Seq<Seq<char>>, max_entries: nat, max_bytes: nat) -> (
    Seq<Seq<Seq<char>>>,
    Seq<Seq<char>>,
)
    decreases ts.len(),
{
    if ts.len() == 0 {
        (Seq::empty(), Seq::empty())
    } else {
        let (sealed, open) = assemble(ts.drop_last(), max_entries, max_bytes);
        let t = ts.last();
        if admits(open, t, max_entries, max_bytes) {
            (sealed, open.push(t))
        } else {
            (sealed.push(open), seq![t])
        }
    }
}

/// Every batch emitted for `ts`: the sealed ones, then the open one if it is
/// not empty (it is flushed at the end of input).
pub open spec fn batches_of(ts: Seq<Seq<char>>, max_entries: nat, max_bytes: nat) -> Seq<
    Seq<Seq<char>>,
> {
    let (sealed, open) = assemble(ts, max_entries, max_bytes);
    if open.len() == 0 {
        sealed
    } else {
        sealed.push(open)
    }
}

/// A batch within the bounds: not empty, at most `max_entries` entries, and at
/// most `max_bytes` bytes unless it is a single entry.
pub open spec fn batch_in_bounds(b: Seq<Seq<char>>, max_entries: nat, max_bytes: nat) -> bool {
    1 <= b.len() <= max_entries && (batch_bytes(b) <= max_bytes || b.len() == 1)
}

proof fn lemma_batch_bytes_push(b: Seq<Seq<char>>, t: Seq<char>)
    ensures
        batch_bytes(b.push(t)) == batch_bytes(b) + text_bytes(t),
{
    assert(b.push(t).drop_last() =~= b);
}

proof fn lemma_concat_push<A>(bs: Seq<Seq<A>>, b: Seq<A>)
    ensures
        concat(bs.push(b)) == concat(bs) + b,
{
    assert(bs.push(b).drop_last() =~= bs);
}

/// Assembly neither loses, duplicates nor reorders: the sealed batches followed
/// by the open one give back the offered texts; the open batch is empty only
/// when nothing was offered.
pub proof fn lemma_assemble_preserves(ts: Seq<Seq<char>>, max_entries: nat, max_bytes: nat)
    ensures
        concat(assemble(ts, max_entries, max_bytes).0) + assemble(ts, max_entries, max_bytes).1
            == ts,
        ts.len() > 0 ==> assemble(ts, max_entries, max_bytes).1.len() > 0,
    decreases ts.len(),
{
    if ts.len() > 0 {
        lemma_assemble_preserves(ts.drop_last(), max_entries, max_bytes);
        let (sealed, open) = assemble(ts.drop_last(), max_entries, max_bytes);
        let t = ts.last();
        if admits(open, t, max_entries, max_bytes) {
            assert(concat(sealed) + open.push(t) =~= (concat(sealed) + open).push(t));
        } else {
            lemma_concat_push(sealed, open);
            assert(concat(sealed.push(open)) + seq![t] =~= (concat(sealed) + open).push(t));
        }
        assert(ts.drop_last().push(t) =~= ts);
    }
}

/// Every sealed batch is within the bounds, and the open batch is within them
/// or empty.
pub proof fn lemma_assemble_bounds(ts: Seq<Seq<char>>, max_entries: nat, max_bytes: nat)
    requires
        max_entries >= 1,
    ensures
        forall|i: int|
            0 <= i < assemble(ts, max_entries, max_bytes).0.len() ==> batch_in_bounds(
                #[trigger] assemble(ts, max_entries, max_bytes).0[i],
                max_entries,
                max_bytes,
            ),
        assemble(ts, max_entries, max_bytes).1.len() == 0 || batch_in_bounds(
            assemble(ts, max_entries, max_bytes).1,
            max_entries,
            max_bytes,
        ),
    decreases ts.len(),
{
    if ts.len() > 0 {
        lemma_assemble_bounds(ts.drop_last(), max_entries, max_bytes);
        let (sealed, open) = assemble(ts.drop_last(), max_entries, max_bytes);
        let t = ts.last();
        lemma_batch_bytes_push(open, t);
        if !admits(open, t, max_entries, max_bytes) {
            assert(seq![t] =~= Seq::<Seq<char>>::empty().push(t));
            lemma_batch_bytes_push(Seq::empty(), t);
        }
    }
}

/// Every text offered reaches exactly one emitted batch, in the order offered.
pub proof fn lemma_batches_preserve_texts(ts: Seq<Seq<char>>, max_entries: nat, max_bytes: nat)
    ensures
        concat(batches_of(ts, max_entries, max_bytes)) == ts,
{
    lemma_assemble_preserves(ts, max_entries, max_bytes);
    let (sealed, open) = assemble(ts, max_entries, max_bytes);
    if open.len() == 0 {
        assert(concat(sealed) + open =~= concat(sealed));
    } else {
        lemma_concat_push(sealed, open);
    }
}

/// Every emitted batch holds between one and `max_entries` entries and at
/// most `max_bytes` bytes, unless it is a single entry that alone is larger.
pub proof fn lemma_batches_in_bounds(ts: Seq<Seq<char>>, max_entries: nat, max_bytes: nat)
    requires
        max_entries >= 1,
    ensures
        forall|i: int|
            0 <= i < batches_of(ts, max_entries, max_bytes).len() ==> batch_in_bounds(
                #[trigger] batches_of(ts, max_entries, max_bytes)[i],
                max_entries,
                max_bytes,
            ),
{
    lemma_assemble_bounds(ts, max_entries, max_bytes);
}

/// Groups accepted entries into batches bounded by a count and a byte size.
pub struct BatchAssembler {
    open: Vec<LogEntry>,
    open_bytes: usize,
    max_entries: usize,
    max_bytes: usize,
}

impl BatchAssembler {
    /// The texts of the open batch.
    pub closed spec fn open_texts(&self) -> Seq<Seq<char>> {
        texts(self.open@)
    }

    pub closed spec fn entry_bound(&self) -> nat {
        self.max_entries as nat
    }

    pub closed spec fn byte_bound(&self) -> nat {
        self.max_bytes as nat
    }

    pub closed spec fn wf(&self) -> bool {
        self.open_bytes == batch_bytes(texts(self.open@))
    }

    pub fn new(max_entries: usize, max_bytes: usize) -> (r: BatchAssembler)
        ensures
            r.wf(),
            r.open_texts() == Seq::<Seq<char>>::empty(),
            r.entry_bound() == max_entries,
            r.byte_bound() == max_bytes,
    {
        let r = BatchAssembler { open: Vec::new(), open_bytes: 0, max_entries, max_bytes };
        assert(texts(r.open@) =~= Seq::<Seq<char>>::empty());
        r
    }

    pub fn max_entries(&self) -> (r: usize)
        ensures
            r == self.entry_bound(),
    {
        self.max_entries
    }

    pub fn max_bytes(&self) -> (r: usize)
        ensures
            r == self.byte_bound(),
    {
        self.max_bytes
    }

    /// Number of entries in the open batch.
    pub fn pending(&self) -> (r: usize)
        ensures
            r == self.open_texts().len(),
    {
        self.open.len()
    }

    /// Offers one entry. When it does not fit beside the open batch, that batch
    /// is sealed and returned, and the entry starts a fresh one.
    pub fn push(&mut self, e: LogEntry) -> (r: Option<Vec<LogEntry>>)
        requires
            old(self).wf(),
        ensures
            final(self).wf(),
            final(self).entry_bound() == old(self).entry_bound(),
            final(self).byte_bound() == old(self).byte_bound(),
            admits(old(self).open_texts(), e.text(), old(self).entry_bound(), old(self).byte_bound())
                ==> r is None && final(self).open_texts() == old(self).open_texts().push(e.text()),
            !admits(old(self).open_texts(), e.text(), old(self).entry_bound(), old(self).byte_bound())
                ==> r is Some && texts(r->0@) == old(self).open_texts() && final(self).open_texts()
                == seq![e.text()],
    {
        let size = e.byte_size();
        let ghost t = e.text();
        proof {
            lemma_batch_bytes_push(texts(self.open@), t);
        }
        let fits = self.open.len() == 0 || (self.open.len() < self.max_entries && size
            <= self.max_bytes && self.open_bytes <= self.max_bytes - size);
        if fits {
            if self.open.len() == 0 {
                assert(texts(self.open@) =~= Seq::<Seq<char>>::empty());
                self.open_bytes = size;
            } else {
                self.open_bytes = self.open_bytes + size;
            }
            self.open.push(e);
            assert(texts(self.open@) =~= texts(old(self).open@).push(t));
            None
        } else {
            let mut sealed = Vec::new();
            std::mem::swap(&mut sealed, &mut self.open);
            self.open.push(e);
            self.open_bytes = size;
            proof {
                assert(texts(self.open@) =~= seq![t]);
                assert(texts(self.open@) =~= Seq::<Seq<char>>::empty().push(t));
                lemma_batch_bytes_push(Seq::empty(), t);
            }
            Some(sealed)
        }
    }

    /// Seals and returns the open batch if it holds anything.
    pub fn flush(&mut self) -> (r: Option<Vec<LogEntry>>)
        requires
            old(self).wf(),
        ensures
            final(self).wf(),
            final(self).entry_bound() == old(self).entry_bound(),
            final(self).byte_bound() == old(self).byte_bound(),
            final(self).open_texts() == Seq::<Seq<char>>::empty(),
            old(self).open_texts().len() == 0 ==> r is None,
            old(self).open_texts().len() > 0 ==> r is Some && texts(r->0@) == old(
                self,
            ).open_texts(),
    {
        if self.open.len() == 0 {
            assert(texts(self.open@) =~= Seq::<Seq<char>>::empty());
            None
        } else {
            let mut sealed = Vec::new();
            std::mem::swap(&mut sealed, &mut self.open);
            self.open_bytes = 0;
            assert(texts(self.open@) =~= Seq::<Seq<char>>::empty());
            Some(sealed)
        }
    }
}

} // verus!
