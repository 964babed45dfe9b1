//! Directory listings: one row per visible child of a directory, with
//! name, kind, size, and formatted modification time. Entries whose name
//! starts with a dot are left out. Reading the directory itself is the
//! caller's job; this module shapes what was read.

use vstd::prelude::*;

verus! {

/// A directory child as the filesystem reports it: name, kind, byte
/// size, and modification time in seconds since the Unix epoch.
pub struct RawEntry {
    pub name: String,
    pub is_dir: bool,
    pub size: u64,
    pub modified_secs: i64,
}

/// One row of a listing: `class` is "d" for a directory and "f" for a
/// file; `date` is the formatted modification time.
pub struct IndexElement {
    pub class: String,
    pub name: String,
    pub date: String,
    pub size: u64,
}

impl IndexElement {
    pub fn new(class: String, name: String, date: String, size: u64) -> (r: IndexElement)
        ensures
            r.class == class,
            r.name == name,
            r.date == date,
            r.size == size,
    {
        IndexElement { class, name, date, size }
    }
}

/// A listing as handed back to the caller: `status` false, with an
/// explanatory message, when the path was not a directory.
pub struct IndexRender {
    pub status: bool,
    pub info: String,
    pub list: Vec<IndexElement>,
    pub file_path: Option<String>,
}

impl IndexRender {
    pub fn new(
        status: bool,
        info: String,
        list: Vec<IndexElement>,
        file_path: Option<String>,
    ) -> (r: IndexRender)
        ensures
            r.status == status,
            r.info == info,
            r.list == list,
            r.file_path == file_path,
    {
        IndexRender { status, info, list, file_path }
    }
}

/// The message shown when the listed path is not a directory.
pub open spec fn invalid_directory_info() -> Seq<char> {
    "invalid directory configuration"@
}

/// Hidden entries are those whose name starts with a dot; they are left
/// out of listings.
pub open spec fn hidden(name: Seq<char>) -> bool {
    name.len() > 0 && name[0] == '.'
}

/// The visible entries of a directory, in their original order.
pub open spec fn visible_seq(s: Seq<RawEntry>) -> Seq<RawEntry>
    decreases s.len(),
{
    if s.len() == 0 {
        Seq::empty()
    } else if hidden(s.last().name@) {
        visible_seq(s.drop_last())
    } else {
        visible_seq(s.drop_last()).push(s.last())
    }
}

/// True when listing row `x` presents raw entry `e`: same name, class
/// "d" exactly for a directory, a file's byte size kept and a
/// directory's shown as zero. The formatted date depends on the
/// machine's time zone, so it is not pinned here.
pub open spec fn row_matches(e: RawEntry, x: IndexElement) -> bool {
    &&& x.name@ == e.name@
    &&& x.size == if e.is_dir {
        0
    } else {
        e.size
    }
    &&& x.class@ == if e.is_dir {
        seq!['d']
    } else {
        seq!['f']
    }
}

/// Law: a listing never carries a hidden entry.
pub proof fn lemma_visible_seq_visible(s: Seq<RawEntry>)
    ensures
        forall|i: int|
            0 <= i < visible_seq(s).len() ==> !hidden(#[trigger] visible_seq(s)[i].name@),
    decreases s.len(),
{
    if s.len() > 0 {
        lemma_visible_seq_visible(s.drop_last());
        let v = visible_seq(s.drop_last());
        if !hidden(s.last().name@) {
            assert forall|i: int| 0 <= i < visible_seq(s).len() implies !hidden(
                visible_seq(s)[i].name@,
            ) by {
                if i < v.len() {
                    assert(visible_seq(s)[i] == v[i]);
                } else {
                    assert(visible_seq(s)[i] == s.last());
                }
            }
        }
    }
}

/// Relies on chrono's TimeZone::timestamp_opt for Local and on
/// DateTime::format: renders a Unix timestamp as "YYYY-MM-DD HH:MM:SS"
/// text in the machine's local time zone. The result depends on that
/// time zone, so nothing is assumed of it.
#[verifier::external_body]
fn format_local_timestamp(secs: i64) -> (r: Option<String>) {
    match chrono::TimeZone::timestamp_opt(&chrono::Local, secs, 0) {
        chrono::LocalResult::Single(dt) => Some(dt.format("%Y-%m-%d %T").to_string()),
        _ => None,
    }
}

/// True when the entry's name starts with a dot.
fn is_hidden_name(name: &String) -> (b: bool)
    ensures
        b == hidden(name@),
{
    name.as_str().unicode_len() > 0 && name.as_str().get_char(0) == '.'
}

/// Builds the listing for a path. When it is not a directory, the render
/// fails with the fixed message and no rows. Otherwise there is one row
/// per visible entry, in the order given, each presenting its entry, and
/// hidden entries appear nowhere.
pub fn get_directory_info_render(
    is_dir: bool,
    entries: Vec<RawEntry>,
    filtered_path: String,
) -> (r: IndexRender)
    ensures
        r.status == is_dir,
        is_dir ==> {
            &&& r.info@ == Seq::<char>::empty()
            &&& r.file_path == Some(filtered_path)
            &&& r.list@.len() == visible_seq(entries@).len()
            &&& forall|i: int|
                0 <= i < r.list@.len() ==> row_matches(
                    visible_seq(entries@)[i],
                    #[trigger] r.list@[i],
                )
            &&& forall|i: int| 0 <= i < r.list@.len() ==> !hidden(#[trigger] r.list@[i].name@)
        },
        !is_dir ==> {
            &&& r.info@ == invalid_directory_info()
            &&& r.list@.len() == 0
            &&& r.file_path is None
        },
{
    if !is_dir {
        let info = String::from_str("invalid directory configuration");
        return IndexRender::new(false, info, Vec::new(), None);
    }
    let mut rows: Vec<IndexElement> = Vec::new();
    let mut i: usize = 0;
    proof {
        assert(entries@.take(0) =~= Seq::<RawEntry>::empty());
    }
    while i < entries.len()
        invariant
            i <= entries@.len(),
            rows@.len() == visible_seq(entries@.take(i as int)).len(),
            forall|j: int|
                0 <= j < rows@.len() ==> row_matches(
                    visible_seq(entries@.take(i as int))[j],
                    #[trigger] rows@[j],
                ),
        decreases entries@.len() - i,
    {
        let e = &entries[i];
        proof {
            assert(entries@.take(i + 1).drop_last() =~= entries@.take(i as int));
            assert(entries@.take(i + 1).last() == entries@[i as int]);
        }
        if !is_hidden_name(&e.name) {
            let class = if e.is_dir {
                String::from_str("d")
            } else {
                String::from_str("f")
            };
            proof {
                reveal_strlit("d");
                reveal_strlit("f");
                assert("d"@ =~= seq!['d']);
                assert("f"@ =~= seq!['f']);
            }
            let date = match format_local_timestamp(e.modified_secs) {
                Some(d) => d,
                None => String::new(),
            };
            let size = if e.is_dir {
                0
            } else {
                e.size
            };
            let row = IndexElement::new(class, e.name.clone(), date, size);
            rows.push(row);
        }
        i = i + 1;
    }
    proof {
        assert(entries@.take(entries@.len() as int) =~= entries@);
        lemma_visible_seq_visible(entries@);
    }
    IndexRender::new(true, String::new(), rows, Some(filtered_path))
}

} // verus!
