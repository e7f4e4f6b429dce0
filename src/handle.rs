use vstd::prelude::*;
use crate::error::{status_result, Error};

verus! {

/// The native constants for the three ways of opening a file.
pub const MODE_READ: i32 = 0;

pub const MODE_WRITE: i32 = 1;

pub const MODE_MODIFY: i32 = 2;

/// How a file is opened.
#[derive(Clone, Copy, Debug, PartialEq, Eq)]
pub enum Mode {
    Read,
    Write,
    Modify,
}

pub open spec fn mode_code(m: Mode) -> i32 {
    match m {
        Mode::Read => MODE_READ,
        Mode::Write => MODE_WRITE,
        Mode::Modify => MODE_MODIFY,
    }
}

impl From<Mode> for i32 {
    fn from(m: Mode) -> (r: i32) {
        match m {
            Mode::Read => MODE_READ,
            Mode::Write => MODE_WRITE,
            Mode::Modify => MODE_MODIFY,
        }
    }
}

impl vstd::std_specs::convert::FromSpecImpl<Mode> for i32 {
    open spec fn obeys_from_spec() -> bool {
        true
    }

    open spec fn from_spec(m: Mode) -> i32 {
        mode_code(m)
    }
}

/// A top-level container of an open file, by its native index. It means
/// something only within the file that produced it.
#[derive(Clone, Copy, Debug, PartialEq, Eq)]
pub struct Base(pub i32);

impl Base {
    #[must_use]
    pub fn new(arg: i32) -> (r: Base)
        ensures
            r.0 == arg,
    {
        Base(arg)
    }

    pub fn id(&self) -> (r: i32)
        ensures
            r == self.0,
    {
        self.0
    }
}

/// A mesh partition of a base, by its native index.
#[derive(Clone, Copy, Debug, PartialEq, Eq)]
pub struct Zone(pub i32);

impl Zone {
    #[must_use]
    pub fn new(arg: i32) -> (r: Zone)
        ensures
            r.0 == arg,
    {
        Zone(arg)
    }

    pub fn id(&self) -> (r: i32)
        ensures
            r == self.0,
    {
        self.0
    }
}

/// What a file handle is, logically: the native resource id and whether it
/// still owns an open resource.
pub struct FileView {
    pub fd: i32,
    pub open: bool,
}

/// What closing does: an open handle gives up its resource, whose id is
/// handed out for exactly one native close; a closed one stays as it is and
/// asks for nothing.
pub open spec fn close_step(f: FileView) -> (FileView, Option<i32>) {
    (FileView { fd: f.fd, open: false }, if f.open { Some(f.fd) } else { None })
}

/// An open native file. Closing is recorded here, so that the resource is
/// released exactly once and no call is issued on it afterwards.
pub struct File {
    fd: i32,
    open: bool,
}

impl View for File {
    type V = FileView;

    closed spec fn view(&self) -> FileView {
        FileView { fd: self.fd, open: self.open }
    }
}

impl File {
    /// The handle for the native open call that returned `status` and
    /// resource id `fd`: an open file on success, the error otherwise.
    pub fn from_open(status: i32, fd: i32, message: String) -> (r: Result<File, Error>)
        ensures
            status == 0 ==> (r matches Ok(f) && f@ == (FileView { fd, open: true })),
            status != 0 ==> (r matches Err(e) && e.code == status && e.message@ == message@),
    {
        let f = File { fd, open: true };
        status_result(status, f, message)
    }

    /// The resource id to issue a native call on, or None once the file is
    /// closed.
    pub fn handle(&self) -> (r: Option<i32>)
        ensures
            self@.open ==> r == Some(self@.fd),
            !self@.open ==> r is None,
    {
        if self.open {
            Some(self.fd)
        } else {
            None
        }
    }

    pub fn is_open(&self) -> (r: bool)
        ensures
            r == self@.open,
    {
        self.open
    }

    /// Marks the file closed and returns the resource id that the native
    /// close must now be issued on; None when it was closed already.
    pub fn begin_close(&mut self) -> (r: Option<i32>)
        ensures
            (final(self)@, r) == close_step(old(self)@),
    {
        let r = self.handle();
        self.open = false;
        r
    }
}

/// However a file stands, once it has been closed a further close asks for
/// no native call and changes nothing.
pub proof fn lemma_close_once(f: FileView)
    ensures
        close_step(close_step(f).0).1 is None,
        close_step(close_step(f).0).0 == close_step(f).0,
        f.open ==> close_step(f).1 == Some(f.fd),
{
}

/// The size descriptor of an unstructured zone: vertex, cell and
/// boundary-vertex counts, in that order.
pub fn zone_size(vertex_size: i32, cell_size: i32, boundary_size: i32) -> (r: Vec<i32>)
    ensures
        r@ == seq![vertex_size, cell_size, boundary_size],
{
    let mut v: Vec<i32> = Vec::new();
    v.push(vertex_size);
    v.push(cell_size);
    v.push(boundary_size);
    assert(v@ =~= seq![vertex_size, cell_size, boundary_size]);
    v
}

/// The depth of a navigation path: one (label, index) step per label. None
/// where the two lists differ in length, or the depth does not fit the
/// native integer.
pub fn golist_depth(n_labels: usize, n_indices: usize) -> (r: Option<i32>)
    ensures
        r is Some <==> (n_labels == n_indices && n_labels <= i32::MAX),
        r matches Some(d) ==> d == n_labels,
{
    if n_labels == n_indices && n_labels <= i32::MAX as usize {
        Some(n_labels as i32)
    } else {
        None
    }
}

/// A block of elements of one type over an inclusive index range, with the
/// count of boundary elements among them.
#[derive(Debug, Clone)]
pub struct SectionInfo {
    pub section_name: String,
    pub typ: u32,
    pub start: i32,
    pub end: i32,
    pub nbndry: i32,
}

impl SectionInfo {
    /// A section named "Elem" of element type `typ`, from index zero to
    /// `end`, with no boundary elements.
    #[must_use]
    pub fn new(typ: u32, end: i32) -> (r: Self)
        ensures
            r.section_name@ == "Elem"@,
            r.typ == typ,
            r.start == 0,
            r.end == end,
            r.nbndry == 0,
    {
        SectionInfo { section_name: String::from_str("Elem"), typ, start: 0, end, nbndry: 0 }
    }
}

impl Default for SectionInfo {
    fn default() -> (r: Self)
        ensures
            r.section_name@ == Seq::<char>::empty(),
            r.typ == 0,
            r.start == 0,
            r.end == 0,
            r.nbndry == 0,
    {
        SectionInfo { section_name: String::new(), typ: 0, start: 0, end: 0, nbndry: 0 }
    }
}

} // verus!
