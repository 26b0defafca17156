//! A streaming ZIP (store-only, data-descriptor) writer whose bytes are
//! handed to the caller in chunks, with the CRC-32 and record layout proved.
use vstd::prelude::*;

verus! {

// ---------------------------------------------------------------------------
// CRC-32 (IEEE, reflected polynomial 0xEDB88320)
// ---------------------------------------------------------------------------

pub open spec fn crc_round(c: u32) -> u32 {
    if c & 1 == 1 {
        (c >> 1) ^ 0xedb8_8320u32
    } else {
        c >> 1
    }
}

pub open spec fn crc_rounds(c: u32, n: nat) -> u32
    decreases n,
{
    if n == 0 {
        c
    } else {
        crc_round(crc_rounds(c, (n - 1) as nat))
    }
}

pub open spec fn crc_byte(c: u32, b: u8) -> u32 {
    crc_rounds(c ^ (b as u32), 8)
}

/// The running CRC register after feeding `data` into register value `c`.
pub open spec fn crc_update(c: u32, data: Seq<u8>) -> u32
    decreases data.len(),
{
    if data.len() == 0 {
        c
    } else {
        crc_byte(crc_update(c, data.drop_last()), data.last())
    }
}

/// The standard CRC-32 checksum of `data`.
pub open spec fn crc32(data: Seq<u8>) -> u32 {
    crc_update(0xffff_ffffu32, data) ^ 0xffff_ffffu32
}

/// Feeding two chunks one after the other gives the register of feeding
/// their concatenation: the checksum can be computed incrementally.
pub proof fn lemma_crc_update_append(c: u32, a: Seq<u8>, b: Seq<u8>)
    ensures
        crc_update(crc_update(c, a), b) == crc_update(c, a + b),
    decreases b.len(),
{
    if b.len() == 0 {
        assert(a + b =~= a);
    } else {
        lemma_crc_update_append(c, a, b.drop_last());
        assert((a + b).drop_last() =~= a + b.drop_last());
        assert((a + b).last() == b.last());
    }
}

/// `update_crc32`: feeds `data` into the CRC register `crc`.
pub fn update_crc32(crc: u32, data: &[u8]) -> (r: u32)
    ensures
        r == crc_update(crc, data@),
{
    let mut c = crc;
    let mut i: usize = 0;
    while i < data.len()
        invariant
            i <= data.len(),
            c == crc_update(crc, data@.take(i as int)),
        decreases data.len() - i,
    {
        let start = c ^ (data[i] as u32);
        let mut k: usize = 0;
        let mut d = start;
        while k < 8
            invariant
                k <= 8,
                d == crc_rounds(start, k as nat),
            decreases 8 - k,
        {
            if d & 1 == 1 {
                d = (d >> 1) ^ 0xedb8_8320u32;
            } else {
                d = d >> 1;
            }
            k = k + 1;
        }
        proof {
            let t = data@.take(i + 1);
            assert(t.drop_last() =~= data@.take(i as int));
            assert(t.last() == data@[i as int]);
        }
        c = d;
        i = i + 1;
    }
    assert(data@.take(data.len() as int) =~= data@);
    c
}

// ---------------------------------------------------------------------------
// Little-endian encodings and ZIP records
// ---------------------------------------------------------------------------

pub open spec fn le16(v: u16) -> Seq<u8> {
    seq![(v & 0xff) as u8, (v >> 8) as u8]
}

pub open spec fn le32(v: u32) -> Seq<u8> {
    seq![(v & 0xff) as u8, ((v >> 8) & 0xff) as u8, ((v >> 16) & 0xff) as u8, (v >> 24) as u8]
}

/// Local file header of a stored entry whose sizes follow in a data descriptor.
pub open spec fn local_header(name: Seq<u8>) -> Seq<u8> {
    le32(0x0403_4b50) + le16(20) + le16(0x0008) + le16(0) + le16(0) + le16(0) + le32(0) + le32(0)
        + le32(0) + le16(name.len() as u16) + le16(0) + name
}

/// Data descriptor written after an entry's data.
pub open spec fn data_descriptor(crc: u32, compressed: u32, uncompressed: u32) -> Seq<u8> {
    le32(0x0807_4b50) + le32(crc) + le32(compressed) + le32(uncompressed)
}

/// Central directory record of one entry.
pub open spec fn central_record(name: Seq<u8>, crc: u32, compressed: u32, uncompressed: u32, offset: u32) -> Seq<u8> {
    le32(0x0201_4b50) + le16(20) + le16(20) + le16(0x0008) + le16(0) + le16(0) + le16(0) + le32(crc)
        + le32(compressed) + le32(uncompressed) + le16(name.len() as u16) + le16(0) + le16(0)
        + le16(0) + le16(0) + le32(0) + le32(offset) + name
}

/// End-of-central-directory record.
pub open spec fn end_record(count: u16, size: u32, offset: u32) -> Seq<u8> {
    le32(0x0605_4b50) + le16(0) + le16(0) + le16(count) + le16(count) + le32(size) + le32(offset) + le16(0)
}

/// What a finished entry records about itself.
pub struct ZipEntryMeta {
    pub name: String,
    pub crc32: u32,
    pub compressed_size: u64,
    pub uncompressed_size: u64,
    pub local_header_offset: u64,
}

pub open spec fn entry_name_bytes(e: ZipEntryMeta) -> Seq<u8> {
    vstd::utf8::encode_utf8(e.name@)
}

/// The central directory for `entries`, in order.
pub open spec fn central_directory(entries: Seq<ZipEntryMeta>) -> Seq<u8>
    decreases entries.len(),
{
    if entries.len() == 0 {
        seq![]
    } else {
        let e = entries.last();
        central_directory(entries.drop_last()) + central_record(
            entry_name_bytes(e),
            e.crc32,
            e.compressed_size as u32,
            e.uncompressed_size as u32,
            e.local_header_offset as u32,
        )
    }
}

/// Every entry's sizes and offset fit the 32-bit ZIP fields.
pub open spec fn entries_fit_zip32(entries: Seq<ZipEntryMeta>) -> bool {
    forall|k: int|
        0 <= k < entries.len() ==> {
            &&& (#[trigger] entries[k]).compressed_size <= u32::MAX
            &&& entries[k].uncompressed_size <= u32::MAX
            &&& entries[k].local_header_offset <= u32::MAX
        }
}

// ---------------------------------------------------------------------------
// Byte sink: the bytes produced so far, part of them still pending
// ---------------------------------------------------------------------------

/// Output buffer: `pending` holds the bytes not yet handed to the caller;
/// `emitted` is the whole byte stream produced since creation.
pub struct ByteSink {
    pending: Vec<u8>,
    drained: u64,
    emitted: Ghost<Seq<u8>>,
}

impl ByteSink {
    pub closed spec fn wf(&self) -> bool {
        &&& self.emitted@.len() <= u64::MAX
        &&& self.emitted@.len() == self.drained + self.pending@.len()
        &&& self.pending@ == self.emitted@.skip(self.drained as int)
    }

    /// All bytes produced since creation.
    pub closed spec fn bytes(&self) -> Seq<u8> {
        self.emitted@
    }

    /// The bytes not yet handed out by `take_pending`.
    pub closed spec fn pending(&self) -> Seq<u8> {
        self.pending@
    }

    pub fn new() -> (s: Self)
        ensures
            s.wf(),
            s.bytes() == Seq::<u8>::empty(),
            s.pending() == Seq::<u8>::empty(),
    {
        let s = ByteSink { pending: Vec::new(), drained: 0, emitted: Ghost(Seq::empty()) };
        assert(s.emitted@.skip(0) =~= s.pending@);
        s
    }

    pub fn len(&self) -> (n: u64)
        requires
            self.wf(),
        ensures
            n == self.bytes().len(),
    {
        self.drained + self.pending.len() as u64
    }

    pub fn push_slice(&mut self, data: &[u8])
        requires
            old(self).wf(),
            old(self).bytes().len() + data@.len() <= u64::MAX,
        ensures
            final(self).wf(),
            final(self).bytes() == old(self).bytes() + data@,
            final(self).pending() == old(self).pending() + data@,
    {
        let mut i: usize = 0;
        while i < data.len()
            invariant
                i <= data.len(),
                self.wf(),
                self.emitted@ == old(self).emitted@ + data@.take(i as int),
                self.pending@ == old(self).pending@ + data@.take(i as int),
                self.drained == old(self).drained,
                old(self).emitted@.len() + data@.len() <= u64::MAX,
            decreases data.len() - i,
        {
            self.pending.push(data[i]);
            proof {
                assert(data@.take(i + 1) =~= data@.take(i as int).push(data@[i as int]));
                self.emitted@ = self.emitted@.push(data@[i as int]);
                assert(self.pending@ =~= self.emitted@.skip(self.drained as int));
            }
            i = i + 1;
        }
        assert(data@.take(data.len() as int) =~= data@);
    }

    pub fn push_u16(&mut self, v: u16)
        requires
            old(self).wf(),
            old(self).bytes().len() + 2 <= u64::MAX,
        ensures
            final(self).wf(),
            final(self).bytes() == old(self).bytes() + le16(v),
            final(self).pending() == old(self).pending() + le16(v),
    {
        let b = [(v & 0xff) as u8, (v >> 8) as u8];
        assert(b@ =~= le16(v));
        self.push_slice(&b);
    }

    pub fn push_u32(&mut self, v: u32)
        requires
            old(self).wf(),
            old(self).bytes().len() + 4 <= u64::MAX,
        ensures
            final(self).wf(),
            final(self).bytes() == old(self).bytes() + le32(v),
            final(self).pending() == old(self).pending() + le32(v),
    {
        let b = [(v & 0xff) as u8, ((v >> 8) & 0xff) as u8, ((v >> 16) & 0xff) as u8, (v >> 24) as u8];
        assert(b@ =~= le32(v));
        self.push_slice(&b);
    }

    /// Hands out the pending bytes; the produced stream is unchanged.
    pub fn take_pending(&mut self) -> (out: Vec<u8>)
        requires
            old(self).wf(),
        ensures
            final(self).wf(),
            out@ == old(self).pending(),
            final(self).bytes() == old(self).bytes(),
            final(self).pending() == Seq::<u8>::empty(),
    {
        let mut out: Vec<u8> = Vec::new();
        std::mem::swap(&mut out, &mut self.pending);
        self.drained = self.drained + out.len() as u64;
        proof {
            assert(self.emitted@.skip(self.drained as int) =~= Seq::<u8>::empty());
        }
        out
    }
}


fn put_u16(v: &mut Vec<u8>, x: u16)
    ensures
        final(v)@ == old(v)@ + le16(x),
{
    v.push((x & 0xff) as u8);
    v.push((x >> 8) as u8);
    assert(v@ =~= old(v)@ + le16(x));
}

fn put_u32(v: &mut Vec<u8>, x: u32)
    ensures
        final(v)@ == old(v)@ + le32(x),
{
    v.push((x & 0xff) as u8);
    v.push(((x >> 8) & 0xff) as u8);
    v.push(((x >> 16) & 0xff) as u8);
    v.push((x >> 24) as u8);
    assert(v@ =~= old(v)@ + le32(x));
}

fn put_slice(v: &mut Vec<u8>, data: &[u8])
    ensures
        final(v)@ == old(v)@ + data@,
{
    let mut i: usize = 0;
    while i < data.len()
        invariant
            i <= data.len(),
            v@ == old(v)@ + data@.take(i as int),
        decreases data.len() - i,
    {
        v.push(data[i]);
        assert(data@.take(i + 1) =~= data@.take(i as int).push(data@[i as int]));
        i = i + 1;
    }
    assert(data@.take(data.len() as int) =~= data@);
}

/// The bytes of a local file header for an entry named `name`.
pub fn local_header_bytes(name: &[u8]) -> (r: Vec<u8>)
    ensures
        r@ == local_header(name@),
{
    let mut v: Vec<u8> = Vec::new();
    put_u32(&mut v, 0x0403_4b50);
    put_u16(&mut v, 20);
    put_u16(&mut v, 0x0008);
    put_u16(&mut v, 0);
    put_u16(&mut v, 0);
    put_u16(&mut v, 0);
    put_u32(&mut v, 0);
    put_u32(&mut v, 0);
    put_u32(&mut v, 0);
    put_u16(&mut v, name.len() as u16);
    put_u16(&mut v, 0);
    put_slice(&mut v, name);
    assert(v@ =~= local_header(name@));
    v
}

/// The bytes of the central directory record of one entry.
pub fn central_record_bytes(name: &[u8], crc: u32, compressed: u32, uncompressed: u32, offset: u32) -> (r: Vec<u8>)
    ensures
        r@ == central_record(name@, crc, compressed, uncompressed, offset),
{
    let mut v: Vec<u8> = Vec::new();
    put_u32(&mut v, 0x0201_4b50);
    put_u16(&mut v, 20);
    put_u16(&mut v, 20);
    put_u16(&mut v, 0x0008);
    put_u16(&mut v, 0);
    put_u16(&mut v, 0);
    put_u16(&mut v, 0);
    put_u32(&mut v, crc);
    put_u32(&mut v, compressed);
    put_u32(&mut v, uncompressed);
    put_u16(&mut v, name.len() as u16);
    put_u16(&mut v, 0);
    put_u16(&mut v, 0);
    put_u16(&mut v, 0);
    put_u16(&mut v, 0);
    put_u32(&mut v, 0);
    put_u32(&mut v, offset);
    put_slice(&mut v, name);
    assert(v@ =~= central_record(name@, crc, compressed, uncompressed, offset));
    v
}

/// The bytes of the end-of-central-directory record.
pub fn end_record_bytes(count: u16, size: u32, offset: u32) -> (r: Vec<u8>)
    ensures
        r@ == end_record(count, size, offset),
{
    let mut v: Vec<u8> = Vec::new();
    put_u32(&mut v, 0x0605_4b50);
    put_u16(&mut v, 0);
    put_u16(&mut v, 0);
    put_u16(&mut v, count);
    put_u16(&mut v, count);
    put_u32(&mut v, size);
    put_u32(&mut v, offset);
    put_u16(&mut v, 0);
    assert(v@ =~= end_record(count, size, offset));
    v
}

/// The record an entry occupies in the stream: local header, data, descriptor.
pub open spec fn entry_record(e: ZipEntryMeta, data: Seq<u8>) -> Seq<u8> {
    local_header(entry_name_bytes(e)) + data + data_descriptor(e.crc32, data.len() as u32, data.len() as u32)
}

/// `data`'s record lies at the entry's recorded offset inside `bytes`.
pub open spec fn placed(bytes: Seq<u8>, e: ZipEntryMeta, data: Seq<u8>) -> bool {
    let rec = entry_record(e, data);
    &&& e.local_header_offset + rec.len() <= bytes.len()
    &&& bytes.subrange(e.local_header_offset as int, e.local_header_offset + rec.len()) == rec
}

/// A finished entry: its checksum and sizes describe its data, and its
/// record lies at its offset.
pub open spec fn entry_ok(bytes: Seq<u8>, e: ZipEntryMeta, data: Seq<u8>) -> bool {
    &&& e.crc32 == crc32(data)
    &&& e.compressed_size == data.len()
    &&& e.uncompressed_size == data.len()
    &&& data.len() <= u32::MAX
    &&& placed(bytes, e, data)
}

proof fn lemma_placed_extend(b: Seq<u8>, x: Seq<u8>, e: ZipEntryMeta, d: Seq<u8>)
    requires
        placed(b, e, d),
    ensures
        placed(b + x, e, d),
{
    let rec = entry_record(e, d);
    assert((b + x).subrange(e.local_header_offset as int, e.local_header_offset + rec.len())
        =~= b.subrange(e.local_header_offset as int, e.local_header_offset + rec.len()));
}

/// A ZIP archive written front to back. Entries are stored uncompressed;
/// each entry's CRC-32 and size follow its data in a data descriptor, and a
/// central directory closes the archive.
pub struct ZipStream {
    sink: ByteSink,
    entries: Vec<ZipEntryMeta>,
    current: Option<ZipEntryMeta>,
    entry_data: Ghost<Seq<Seq<u8>>>,
    current_data: Ghost<Seq<u8>>,
}

impl ZipStream {
    pub closed spec fn wf(&self) -> bool {
        &&& self.sink.wf()
        &&& self.entries@.len() == self.entry_data@.len()
        &&& forall|k: int|
            0 <= k < self.entries@.len() ==> entry_ok(
                self.sink.bytes(),
                #[trigger] self.entries@[k],
                self.entry_data@[k],
            )
        &&& match self.current {
            Some(c) => {
                &&& c.crc32 == crc_update(0xffff_ffffu32, self.current_data@)
                &&& c.compressed_size == self.current_data@.len()
                &&& c.uncompressed_size == self.current_data@.len()
                &&& c.local_header_offset + local_header(entry_name_bytes(c)).len()
                    + self.current_data@.len() == self.sink.bytes().len()
                &&& self.sink.bytes().subrange(c.local_header_offset as int, self.sink.bytes().len() as int)
                    == local_header(entry_name_bytes(c)) + self.current_data@
            },
            None => true,
        }
    }

    /// Every byte written so far.
    pub closed spec fn bytes(&self) -> Seq<u8> {
        self.sink.bytes()
    }

    /// Bytes written but not yet handed out by `flush`.
    pub closed spec fn pending(&self) -> Seq<u8> {
        self.sink.pending()
    }

    /// The finished entries, in order.
    pub closed spec fn entries(&self) -> Seq<ZipEntryMeta> {
        self.entries@
    }

    /// The data of each finished entry.
    pub closed spec fn entry_data(&self) -> Seq<Seq<u8>> {
        self.entry_data@
    }

    pub closed spec fn is_open(&self) -> bool {
        self.current is Some
    }

    /// Name of the open entry.
    pub closed spec fn current_name(&self) -> Seq<char> {
        self.current->Some_0.name@
    }

    /// Offset of the open entry's local header.
    pub closed spec fn current_offset(&self) -> u64 {
        self.current->Some_0.local_header_offset
    }

    /// Data written into the open entry so far.
    pub closed spec fn current_data(&self) -> Seq<u8> {
        self.current_data@
    }

    /// Law: every finished entry's checksum is the CRC-32 of its data, its
    /// sizes are the data's length, and its local header, data and data
    /// descriptor lie in the stream at its recorded offset.
    pub proof fn lemma_entries_placed(&self)
        requires
            self.wf(),
        ensures
            self.entries().len() == self.entry_data().len(),
            forall|k: int|
                0 <= k < self.entries().len() ==> entry_ok(
                    self.bytes(),
                    #[trigger] self.entries()[k],
                    self.entry_data()[k],
                ),
    {
    }

    proof fn lemma_extend_keeps_entries(&self, old_bytes: Seq<u8>, x: Seq<u8>)
        requires
            self.entries@.len() == self.entry_data@.len(),
            forall|k: int|
                0 <= k < self.entries@.len() ==> entry_ok(
                    old_bytes,
                    #[trigger] self.entries@[k],
                    self.entry_data@[k],
                ),
        ensures
            forall|k: int|
                0 <= k < self.entries@.len() ==> entry_ok(
                    old_bytes + x,
                    #[trigger] self.entries@[k],
                    self.entry_data@[k],
                ),
    {
        assert forall|k: int| 0 <= k < self.entries@.len() implies entry_ok(
            old_bytes + x,
            #[trigger] self.entries@[k],
            self.entry_data@[k],
        ) by {
            lemma_placed_extend(old_bytes, x, self.entries@[k], self.entry_data@[k]);
        }
    }

    pub fn new() -> (z: Self)
        ensures
            z.wf(),
            z.bytes() == Seq::<u8>::empty(),
            z.pending() == Seq::<u8>::empty(),
            z.entries() == Seq::<ZipEntryMeta>::empty(),
            !z.is_open(),
    {
        ZipStream {
            sink: ByteSink::new(),
            entries: Vec::new(),
            current: None,
            entry_data: Ghost(Seq::empty()),
            current_data: Ghost(Seq::empty()),
        }
    }

    /// Position of the next byte in the archive.
    pub fn position(&self) -> (p: u64)
        requires
            self.wf(),
        ensures
            p == self.bytes().len(),
    {
        self.sink.len()
    }

    /// Hands out the bytes written since the last flush.
    pub fn flush(&mut self) -> (out: Vec<u8>)
        requires
            old(self).wf(),
        ensures
            final(self).wf(),
            out@ == old(self).pending(),
            final(self).pending() == Seq::<u8>::empty(),
            final(self).bytes() == old(self).bytes(),
            final(self).entries() == old(self).entries(),
            final(self).entry_data() == old(self).entry_data(),
            final(self).is_open() == old(self).is_open(),
            final(self).current_name() == old(self).current_name(),
            final(self).current_offset() == old(self).current_offset(),
            final(self).current_data() == old(self).current_data(),
    {
        self.sink.take_pending()
    }

    /// Opens a new entry named `name` and writes its local header.
    pub fn start_entry(&mut self, name: &str) -> (r: Result<(), String>)
        requires
            old(self).wf(),
            old(self).bytes().len() + local_header(vstd::utf8::encode_utf8(name@)).len() <= u64::MAX,
        ensures
            final(self).wf(),
            final(self).entries() == old(self).entries(),
            final(self).entry_data() == old(self).entry_data(),
            old(self).is_open() ==> {
                &&& r is Err
                &&& r->Err_0@ == "A ZIP entry is already open"@
                &&& *final(self) == *old(self)
            },
            !old(self).is_open() ==> {
                &&& r is Ok
                &&& final(self).bytes() == old(self).bytes() + local_header(vstd::utf8::encode_utf8(name@))
                &&& final(self).pending() == old(self).pending() + local_header(vstd::utf8::encode_utf8(name@))
                &&& final(self).is_open()
                &&& final(self).current_name() == name@
                &&& final(self).current_offset() == old(self).bytes().len()
                &&& final(self).current_data() == Seq::<u8>::empty()
            },
    {
        if self.current.is_some() {
            return Err(String::from_str("A ZIP entry is already open"));
        }
        let offset = self.position();
        let ghost old_bytes = self.sink.bytes();
        let name_bytes = name.as_bytes();
        let header = local_header_bytes(name_bytes);
        self.sink.push_slice(header.as_slice());
        proof {
            self.lemma_extend_keeps_entries(old_bytes, local_header(name_bytes@));
        }
        let meta = ZipEntryMeta {
            name: String::from_str(name),
            crc32: 0xffff_ffffu32,
            compressed_size: 0,
            uncompressed_size: 0,
            local_header_offset: offset,
        };
        self.current = Some(meta);
        proof {
            self.current_data@ = Seq::empty();
            assert(self.sink.bytes().subrange(offset as int, self.sink.bytes().len() as int)
                =~= local_header(name_bytes@) + self.current_data@);
        }
        Ok(())
    }

    /// Appends `data` to the open entry.
    pub fn write_entry_data(&mut self, data: &[u8]) -> (r: Result<(), String>)
        requires
            old(self).wf(),
            old(self).bytes().len() + data@.len() <= u64::MAX,
        ensures
            final(self).wf(),
            final(self).entries() == old(self).entries(),
            final(self).entry_data() == old(self).entry_data(),
            final(self).is_open() == old(self).is_open(),
            !old(self).is_open() ==> {
                &&& r is Err
                &&& r->Err_0@ == "No ZIP entry is open"@
                &&& *final(self) == *old(self)
            },
            old(self).is_open() ==> {
                &&& r is Ok
                &&& final(self).bytes() == old(self).bytes() + data@
                &&& final(self).pending() == old(self).pending() + data@
                &&& final(self).current_name() == old(self).current_name()
                &&& final(self).current_offset() == old(self).current_offset()
                &&& final(self).current_data() == old(self).current_data() + data@
            },
    {
        let mut cur = match self.current.take() {
            Some(c) => c,
            None => {
                return Err(String::from_str("No ZIP entry is open"));
            },
        };
        let ghost old_bytes = self.sink.bytes();
        self.sink.push_slice(data);
        proof {
            self.lemma_extend_keeps_entries(old_bytes, data@);
            lemma_crc_update_append(0xffff_ffffu32, self.current_data@, data@);
        }
        cur.crc32 = update_crc32(cur.crc32, data);
        cur.compressed_size = cur.compressed_size + data.len() as u64;
        cur.uncompressed_size = cur.uncompressed_size + data.len() as u64;
        proof {
            let nb = entry_name_bytes(cur);
            assert(self.sink.bytes().subrange(cur.local_header_offset as int, self.sink.bytes().len() as int)
                =~= old_bytes.subrange(cur.local_header_offset as int, old_bytes.len() as int) + data@);
            assert(local_header(nb) + (self.current_data@ + data@) =~= local_header(nb) + self.current_data@ + data@);
            self.current_data@ = self.current_data@ + data@;
        }
        self.current = Some(cur);
        Ok(())
    }

    /// Closes the open entry: writes its data descriptor and records it.
    pub fn finish_entry(&mut self) -> (r: Result<(), String>)
        requires
            old(self).wf(),
            old(self).bytes().len() + 16 <= u64::MAX,
        ensures
            final(self).wf(),
            !final(self).is_open(),
            !old(self).is_open() ==> {
                &&& r is Err
                &&& r->Err_0@ == "No ZIP entry is open"@
                &&& *final(self) == *old(self)
            },
            old(self).is_open() && old(self).current_data().len() <= u32::MAX ==> {
                &&& r is Ok
                &&& final(self).bytes() == old(self).bytes() + data_descriptor(
                    crc32(old(self).current_data()),
                    old(self).current_data().len() as u32,
                    old(self).current_data().len() as u32,
                )
                &&& final(self).pending() == old(self).pending() + data_descriptor(
                    crc32(old(self).current_data()),
                    old(self).current_data().len() as u32,
                    old(self).current_data().len() as u32,
                )
                &&& final(self).entries().len() == old(self).entries().len() + 1
                &&& final(self).entries().drop_last() == old(self).entries()
                &&& final(self).entries().last().name@ == old(self).current_name()
                &&& final(self).entries().last().local_header_offset == old(self).current_offset()
                &&& final(self).entry_data() == old(self).entry_data().push(old(self).current_data())
            },
            old(self).is_open() && old(self).current_data().len() > u32::MAX ==> {
                &&& r is Err
                &&& r->Err_0@ == "XLSX package is larger than ZIP32 supports"@
                &&& final(self).bytes() == old(self).bytes() + le32(0x0807_4b50) + le32(crc32(old(self).current_data()))
                &&& final(self).pending() == old(self).pending() + le32(0x0807_4b50) + le32(crc32(old(self).current_data()))
                &&& final(self).entries() == old(self).entries()
                &&& final(self).entry_data() == old(self).entry_data()
            },
    {
        let mut cur = match self.current.take() {
            Some(c) => c,
            None => {
                return Err(String::from_str("No ZIP entry is open"));
            },
        };
        let ghost old_bytes = self.sink.bytes();
        let ghost d = self.current_data@;
        cur.crc32 = cur.crc32 ^ 0xffff_ffffu32;
        self.sink.push_u32(0x0807_4b50);
        self.sink.push_u32(cur.crc32);
        proof {
            self.lemma_extend_keeps_entries(old_bytes, le32(0x0807_4b50) + le32(cur.crc32));
            assert(self.sink.bytes() =~= old_bytes + (le32(0x0807_4b50) + le32(cur.crc32)));
        }
        let size = match as_zip_u32(cur.compressed_size) {
            Ok(v) => v,
            Err(e) => {
                return Err(e);
            },
        };
        let ghost mid_bytes = self.sink.bytes();
        self.sink.push_u32(size);
        self.sink.push_u32(size);
        proof {
            let x = le32(size) + le32(size);
            assert(self.sink.bytes() =~= mid_bytes + x);
            self.lemma_extend_keeps_entries(mid_bytes, x);
            let nb = entry_name_bytes(cur);
            let rec = entry_record(cur, d);
            assert(rec =~= local_header(nb) + d + le32(0x0807_4b50) + le32(cur.crc32) + le32(size) + le32(size));
            assert(self.sink.bytes().subrange(cur.local_header_offset as int, cur.local_header_offset + rec.len())
                =~= rec);
        }
        self.entries.push(cur);
        proof {
            self.entry_data@ = self.entry_data@.push(d);
            assert forall|k: int| 0 <= k < self.entries@.len() implies entry_ok(
                self.sink.bytes(),
                #[trigger] self.entries@[k],
                self.entry_data@[k],
            ) by {
                if k < self.entries@.len() - 1 {
                    assert(self.entries@[k] == old(self).entries@[k]);
                }
            }
            assert(self.entries@.drop_last() =~= old(self).entries@);
            assert(self.sink.bytes() =~= old(self).sink.bytes() + data_descriptor(crc32(d), d.len() as u32, d.len() as u32));
            assert(self.sink.pending() =~= old(self).sink.pending() + data_descriptor(crc32(d), d.len() as u32, d.len() as u32));
        }
        Ok(())
    }
}

impl ZipStream {
    /// Writes a complete entry holding the UTF-8 bytes of `data`.
    pub fn add_entry(&mut self, name: &str, data: &str) -> (r: Result<(), String>)
        requires
            old(self).wf(),
            old(self).bytes().len() + local_header(vstd::utf8::encode_utf8(name@)).len()
                + vstd::utf8::encode_utf8(data@).len() + 16 <= u64::MAX,
        ensures
            final(self).wf(),
            !old(self).is_open() ==> !final(self).is_open(),
            old(self).is_open() ==> {
                &&& r is Err
                &&& r->Err_0@ == "A ZIP entry is already open"@
                &&& *final(self) == *old(self)
            },
            !old(self).is_open() && vstd::utf8::encode_utf8(data@).len() <= u32::MAX ==> {
                &&& r is Ok
                &&& final(self).bytes() == old(self).bytes() + local_header(vstd::utf8::encode_utf8(name@))
                    + vstd::utf8::encode_utf8(data@) + data_descriptor(
                    crc32(vstd::utf8::encode_utf8(data@)),
                    vstd::utf8::encode_utf8(data@).len() as u32,
                    vstd::utf8::encode_utf8(data@).len() as u32,
                )
                &&& final(self).pending() == old(self).pending() + local_header(vstd::utf8::encode_utf8(name@))
                    + vstd::utf8::encode_utf8(data@) + data_descriptor(
                    crc32(vstd::utf8::encode_utf8(data@)),
                    vstd::utf8::encode_utf8(data@).len() as u32,
                    vstd::utf8::encode_utf8(data@).len() as u32,
                )
                &&& final(self).entries().len() == old(self).entries().len() + 1
                &&& final(self).entries().drop_last() == old(self).entries()
                &&& final(self).entries().last().name@ == name@
                &&& final(self).entries().last().local_header_offset == old(self).bytes().len()
                &&& final(self).entry_data() == old(self).entry_data().push(vstd::utf8::encode_utf8(data@))
            },
            !old(self).is_open() && vstd::utf8::encode_utf8(data@).len() > u32::MAX ==> r is Err,
    {
        self.start_entry(name)?;
        self.write_entry_data(data.as_bytes())?;
        let r = self.finish_entry();
        assert(self.bytes() =~= old(self).bytes() + local_header(vstd::utf8::encode_utf8(name@))
            + vstd::utf8::encode_utf8(data@) + data_descriptor(
            crc32(vstd::utf8::encode_utf8(data@)),
            vstd::utf8::encode_utf8(data@).len() as u32,
            vstd::utf8::encode_utf8(data@).len() as u32,
        ) || r is Err);
        assert(self.pending() =~= old(self).pending() + local_header(vstd::utf8::encode_utf8(name@))
            + vstd::utf8::encode_utf8(data@) + data_descriptor(
            crc32(vstd::utf8::encode_utf8(data@)),
            vstd::utf8::encode_utf8(data@).len() as u32,
            vstd::utf8::encode_utf8(data@).len() as u32,
        ) || r is Err);
        r
    }

    /// Writes the central directory and the end record, and hands out the
    /// remaining bytes of the archive.
    pub fn finish(self) -> (r: Result<Vec<u8>, String>)
        requires
            self.wf(),
        ensures
            self.is_open() ==> r is Err && r->Err_0@ == "Cannot finish ZIP while an entry is open"@,
            !self.is_open() && entries_fit_zip32(self.entries())
                && central_directory(self.entries()).len() <= u32::MAX
                && self.bytes().len() <= u32::MAX ==> {
                &&& r is Ok
                &&& r->Ok_0@ == self.pending() + central_directory(self.entries()) + end_record(
                    self.entries().len() as u16,
                    central_directory(self.entries()).len() as u32,
                    self.bytes().len() as u32,
                )
            },
            !self.is_open() && !(entries_fit_zip32(self.entries())
                && central_directory(self.entries()).len() <= u32::MAX
                && self.bytes().len() <= u32::MAX) ==> {
                &&& r is Err
                &&& r->Err_0@ == "XLSX package is larger than ZIP32 supports"@
            },
    {
        let mut z = self;
        if z.current.is_some() {
            return Err(String::from_str("Cannot finish ZIP while an entry is open"));
        }
        let central_offset = z.position();
        // Every failure below carries the same message and leaves nothing
        // behind, so the oversized offset can be refused before any write.
        let offset32 = as_zip_u32(central_offset)?;
        let ghost start = z.sink.bytes();
        let ghost start_pending = z.sink.pending();
        let ghost all = z.entries@;
        proof {
            assert forall|k: int| 0 <= k < all.len() implies (#[trigger] all[k]).compressed_size <= u32::MAX
                && all[k].uncompressed_size <= u32::MAX by {
                assert(entry_ok(z.sink.bytes(), z.entries@[k], z.entry_data@[k]));
            }
        }
        let n = z.entries.len();
        let mut i: usize = 0;
        while i < n
            invariant
                i <= n == z.entries@.len(),
                z.entries@ == all,
                all == self.entries(),
                start == self.bytes(),
                start_pending == self.pending(),
                !self.is_open(),
                start.len() <= u32::MAX,
                z.sink.wf(),
                z.sink.bytes() == start + central_directory(all.take(i as int)),
                z.sink.pending() == start_pending + central_directory(all.take(i as int)),
                central_directory(all.take(i as int)).len() <= u32::MAX,
                forall|k: int|
                    0 <= k < n ==> (#[trigger] all[k]).compressed_size <= u32::MAX
                        && all[k].uncompressed_size <= u32::MAX,
                forall|k: int| 0 <= k < i ==> (#[trigger] all[k]).local_header_offset <= u32::MAX,
                central_offset == start.len(),
            decreases n - i,
        {
            proof {
                lemma_central_directory_prefix_len(all, i as int + 1);
                assert(all.take(i as int + 1).drop_last() =~= all.take(i as int));
                assert(all.take(i as int + 1).last() == all[i as int]);
            }
            let e = &z.entries[i];
            let compressed = as_zip_u32(e.compressed_size)?;
            let uncompressed = as_zip_u32(e.uncompressed_size)?;
            let offset = match as_zip_u32(e.local_header_offset) {
                Ok(v) => v,
                Err(err) => {
                    proof {
                        assert(!entries_fit_zip32(all));
                    }
                    return Err(err);
                },
            };
            let record = central_record_bytes(e.name.as_str().as_bytes(), e.crc32, compressed, uncompressed, offset);
            let written = z.sink.len() - central_offset;
            if record.len() as u64 > 0xffff_ffffu64 - written {
                proof {
                    assert(central_directory(all.take(i as int + 1)).len() > u32::MAX);
                }
                return Err(String::from_str("XLSX package is larger than ZIP32 supports"));
            }
            z.sink.push_slice(record.as_slice());
            i = i + 1;
        }
        proof {
            assert(all.take(n as int) =~= all);
            assert(entries_fit_zip32(all));
        }
        let central_size = z.sink.len() - central_offset;
        let size32 = as_zip_u32(central_size)?;
        let end = end_record_bytes(n as u16, size32, offset32);
        z.sink.push_slice(end.as_slice());
        Ok(z.sink.take_pending())
    }
}

proof fn lemma_central_directory_prefix_len(all: Seq<ZipEntryMeta>, i: int)
    requires
        0 <= i <= all.len(),
    ensures
        central_directory(all.take(i)).len() <= central_directory(all).len(),
    decreases all.len() - i,
{
    if i < all.len() {
        lemma_central_directory_prefix_len(all, i + 1);
        assert(all.take(i + 1).drop_last() =~= all.take(i));
    } else {
        assert(all.take(i) =~= all);
    }
}

/// `u32::try_from` for ZIP32 fields.
pub fn as_zip_u32(value: u64) -> (r: Result<u32, String>)
    ensures
        value <= u32::MAX ==> r == Ok::<u32, String>(value as u32),
        value > u32::MAX ==> r is Err && r->Err_0@ == "XLSX package is larger than ZIP32 supports"@,
{
    if value <= 0xffff_ffffu64 {
        Ok(value as u32)
    } else {
        Err(String::from_str("XLSX package is larger than ZIP32 supports"))
    }
}

} // verus!
