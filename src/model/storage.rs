use vstd::prelude::*;

use crate::error::{ErrorKind, WinfetchError, WinfetchResult};
use crate::model::memory::{decimal_or_error, parse_number};
use crate::record::{lemma_text_mismatch, mismatched, text_spec, Field, Record};
use crate::value::ValueKind;
use crate::text::{
    chars_of, fixed_two, lower_ascii, push_fixed_two, push_str, string_from_chars, to_lower_ascii,
};
use crate::utils::{percentage_bar, GeneratePercentageBar};

verus! {

/// One logical disk: where it is mounted, and its free and total bytes.
#[derive(Clone, Debug)]
pub struct StorageDrive {
    DriveLetter: String,
    FreeSpace: u64,
    Size: u64,
}

/// The logical disks of the host, in the order the service listed them.
#[derive(Clone, Debug)]
pub struct Storage {
    pub Drives: Vec<StorageDrive>,
}

/// The mathematical content of a drive: mount path, free bytes, total bytes.
pub type DriveView = (Seq<char>, nat, nat);

/// The device identifier without colons and in ASCII lower case.
pub open spec fn mount_letters(id: Seq<char>) -> Seq<char>
    decreases id.len(),
{
    if id.len() == 0 {
        Seq::empty()
    } else if id.last() == ':' {
        mount_letters(id.drop_last())
    } else {
        mount_letters(id.drop_last()).push(lower_ascii(id.last()))
    }
}

/// The unix-style mount path of a device: "C:" is mounted at "/mnt/c/".
pub open spec fn mount_path(id: Seq<char>) -> Seq<char> {
    "/mnt/"@ + mount_letters(id) + "/"@
}

/// What a logical-disk record gives: its mount path, free and total bytes.
/// The three fields are read as text first, then the numbers are parsed; the
/// first error met decides.
pub open spec fn drive_spec(fields: Seq<Field>) -> Result<DriveView, ErrorKind> {
    match text_spec(fields, "DeviceID"@) {
        Err(k) => Err(k),
        Ok(id) => match text_spec(fields, "FreeSpace"@) {
            Err(k) => Err(k),
            Ok(free) => match text_spec(fields, "Size"@) {
                Err(k) => Err(k),
                Ok(size) => match decimal_or_error(free) {
                    Err(k) => Err(k),
                    Ok(f) => match decimal_or_error(size) {
                        Err(k) => Err(k),
                        Ok(z) => Ok((mount_path(id), f, z)),
                    },
                },
            },
        },
    }
}

/// What the logical-disk records give: one drive per record, in order, or the
/// first error met.
pub open spec fn storage_spec(records: Seq<Record>) -> Result<Seq<DriveView>, ErrorKind>
    decreases records.len(),
{
    if records.len() == 0 {
        Ok(Seq::empty())
    } else {
        match storage_spec(records.drop_last()) {
            Err(k) => Err(k),
            Ok(ds) => match drive_spec(records.last().fields@) {
                Err(k) => Err(k),
                Ok(d) => Ok(ds.push(d)),
            },
        }
    }
}

/// Bytes in terabytes above one terabyte, else in gigabytes; in hundredths,
/// rounded half up, with the unit.
pub open spec fn units_text(bytes: nat) -> Seq<char> {
    if bytes > 1099511627776 {
        fixed_two((bytes * 100 + 549755813888) / 1099511627776) + " TB"@
    } else {
        fixed_two((bytes * 100 + 536870912) / 1073741824) + " GB"@
    }
}

/// The share of a drive in use, in whole percent; none of an empty drive.
pub open spec fn drive_percentage(free: nat, size: nat) -> int {
    if size == 0 {
        0
    } else {
        (size - free) * 100 / (size as int)
    }
}

/// The line of one drive: its mount path, its usage bar, used and total size.
pub open spec fn drive_text(path: Seq<char>, free: nat, size: nat) -> Seq<char> {
    "\x1B[34m Drive ("@ + path + ")\x1B[0m: "@ + percentage_bar(drive_percentage(free, size)) + " "@
        + units_text((size - free) as nat) + " / "@ + units_text(size)
}

/// The lines of all drives, one after another.
pub open spec fn storage_text(ds: Seq<DriveView>) -> Seq<char>
    decreases ds.len(),
{
    if ds.len() == 0 {
        Seq::empty()
    } else {
        storage_text(ds.drop_last()) + drive_text(ds.last().0, ds.last().1, ds.last().2)
    }
}

/// The unix-style mount path of device `id`.
pub fn MountPath(id: &str) -> (r: String)
    ensures
        r@ == mount_path(id@),
{
    let cs = chars_of(id);
    let mut out: Vec<char> = Vec::new();
    push_str(&mut out, "/mnt/");
    let ghost start = out@;
    let mut i: usize = 0;
    while i < cs.len()
        invariant
            i <= cs.len(),
            cs@ == id@,
            out@ == start + mount_letters(cs@.take(i as int)),
        decreases cs.len() - i,
    {
        assert(cs@.take(i + 1).drop_last() =~= cs@.take(i as int));
        let c = cs[i];
        if c != ':' {
            out.push(to_lower_ascii(c));
        }
        i = i + 1;
        assert(out@ =~= start + mount_letters(cs@.take(i as int)));
    }
    assert(cs@.take(i as int) =~= cs@);
    push_str(&mut out, "/");
    assert(out@ =~= mount_path(id@));
    string_from_chars(&out)
}

fn push_units(out: &mut Vec<char>, bytes: u64)
    ensures
        final(out)@ == old(out)@ + units_text(bytes as nat),
{
    let b = bytes as u128;
    if bytes > 1099511627776 {
        let h = (b * 100 + 549755813888) / 1099511627776;
        assert(h <= u64::MAX) by (nonlinear_arith)
            requires
                h == (b * 100 + 549755813888) / 1099511627776,
                b <= u64::MAX,
        ;
        push_fixed_two(out, h as u64);
        push_str(out, " TB");
    } else {
        let h = (b * 100 + 536870912) / 1073741824;
        assert(h <= u64::MAX) by (nonlinear_arith)
            requires
                h == (b * 100 + 536870912) / 1073741824,
                b <= 1099511627776,
        ;
        push_fixed_two(out, h as u64);
        push_str(out, " GB");
    }
}

impl StorageDrive {
    pub closed spec fn view_drive(&self) -> DriveView {
        (self.DriveLetter@, self.FreeSpace as nat, self.Size as nat)
    }

    pub fn new(mount_path: String, free_bytes: u64, size_bytes: u64) -> (d: StorageDrive)
        ensures
            d.view_drive() == (mount_path@, free_bytes as nat, size_bytes as nat),
    {
        StorageDrive { DriveLetter: mount_path, FreeSpace: free_bytes, Size: size_bytes }
    }

    /// Builds a drive from one logical-disk record.
    pub fn from_record(record: &Record) -> (r: WinfetchResult<StorageDrive>)
        ensures
            match r {
                Ok(d) => drive_spec(record.fields@) == Ok::<DriveView, ErrorKind>(d.view_drive()),
                Err(e) => drive_spec(record.fields@) == Err::<DriveView, ErrorKind>(e.0),
            },
    {
        let id = record.GetText("DeviceID")?;
        let free_text = record.GetText("FreeSpace")?;
        let size_text = record.GetText("Size")?;
        let free = parse_number(&free_text)?;
        let size = parse_number(&size_text)?;
        Ok(StorageDrive { DriveLetter: MountPath(id.as_str()), FreeSpace: free, Size: size })
    }

    pub fn mount_path(&self) -> (r: &String)
        ensures
            r@ == self.view_drive().0,
    {
        &self.DriveLetter
    }

    pub fn free_bytes(&self) -> (n: u64)
        ensures
            n as nat == self.view_drive().1,
    {
        self.FreeSpace
    }

    pub fn size_bytes(&self) -> (n: u64)
        ensures
            n as nat == self.view_drive().2,
    {
        self.Size
    }

    /// The line of the drive; an input error where more is free than there is.
    pub fn to_text(&self) -> (r: WinfetchResult<String>)
        ensures
            self.view_drive().1 <= self.view_drive().2 ==> r is Ok && r->Ok_0@ == drive_text(
                self.view_drive().0,
                self.view_drive().1,
                self.view_drive().2,
            ),
            self.view_drive().1 > self.view_drive().2 ==> r is Err && r->Err_0.0
                == ErrorKind::InvalidInput,
    {
        if self.FreeSpace > self.Size {
            return Err(WinfetchError::new(ErrorKind::InvalidInput, "the free space exceeds the size of the drive"));
        }
        let used = self.Size - self.FreeSpace;
        let p: u128 = if self.Size == 0 {
            0
        } else {
            let size = self.Size as u128;
            let q = (used as u128) * 100 / size;
            assert(q <= 100) by (nonlinear_arith)
                requires
                    q == (used as u128) * 100 / (size as int),
                    used <= size,
                    0 < size,
            ;
            q
        };
        let bar = match GeneratePercentageBar(p as i32) {
            Ok(b) => b,
            Err(e) => {
                return Err(e);
            },
        };
        let mut out: Vec<char> = Vec::new();
        push_str(&mut out, "\x1B[34m Drive (");
        push_str(&mut out, self.DriveLetter.as_str());
        push_str(&mut out, ")\x1B[0m: ");
        push_str(&mut out, bar.as_str());
        push_str(&mut out, " ");
        push_units(&mut out, used);
        push_str(&mut out, " / ");
        push_units(&mut out, self.Size);
        assert(out@ =~= drive_text(self.view_drive().0, self.view_drive().1, self.view_drive().2));
        Ok(string_from_chars(&out))
    }
}

/// The mathematical content of each drive, in order.
pub open spec fn drive_views(ds: Seq<StorageDrive>) -> Seq<DriveView> {
    Seq::new(ds.len(), |i: int| ds[i].view_drive())
}

impl Storage {
    pub open spec fn view_drives(&self) -> Seq<DriveView> {
        drive_views(self.Drives@)
    }

    /// Builds one drive per logical-disk record, in order; the first record
    /// that cannot be read decides the error.
    pub fn GetStorageStatistics(records: &Vec<Record>) -> (r: WinfetchResult<Storage>)
        ensures
            match r {
                Ok(s) => storage_spec(records@) == Ok::<Seq<DriveView>, ErrorKind>(s.view_drives()),
                Err(e) => storage_spec(records@) == Err::<Seq<DriveView>, ErrorKind>(e.0),
            },
    {
        let mut drives: Vec<StorageDrive> = Vec::new();
        let mut i: usize = 0;
        assert(records@.take(0) =~= Seq::<Record>::empty());
        assert(drive_views(drives@) =~= Seq::<DriveView>::empty());
        while i < records.len()
            invariant
                i <= records.len(),
                storage_spec(records@.take(i as int)) == Ok::<Seq<DriveView>, ErrorKind>(
                    drive_views(drives@),
                ),
            decreases records.len() - i,
        {
            assert(records@.take(i + 1).drop_last() =~= records@.take(i as int));
            assert(records@.take(i + 1).last() == records@[i as int]);
            let d = match StorageDrive::from_record(&records[i]) {
                Ok(d) => d,
                Err(e) => {
                    proof {
                        lemma_storage_error_persists(records@, i as int + 1);
                    }
                    return Err(e);
                },
            };
            let ghost before = drives@;
            drives.push(d);
            assert(drive_views(drives@) =~= drive_views(before).push(d.view_drive()));
            assert(storage_spec(records@.take(i + 1)) == Ok::<Seq<DriveView>, ErrorKind>(
                drive_views(drives@),
            ));
            i = i + 1;
        }
        assert(records@.take(i as int) =~= records@);
        Ok(Storage { Drives: drives })
    }

    /// The drive lines, one after another; an input error where a drive has
    /// more free than it has in all.
    pub fn to_text(&self) -> (r: WinfetchResult<String>)
        ensures
            r is Ok <==> forall|i: int| 0 <= i < self.Drives@.len() ==> #[trigger] self.Drives@[i].view_drive().1
                <= self.Drives@[i].view_drive().2,
            r matches Ok(t) ==> t@ == storage_text(self.view_drives()),
            r matches Err(e) ==> e.0 == ErrorKind::InvalidInput,
    {
        let mut out: Vec<char> = Vec::new();
        let mut i: usize = 0;
        while i < self.Drives.len()
            invariant
                i <= self.Drives@.len(),
                forall|j: int| 0 <= j < i ==> #[trigger] self.Drives@[j].view_drive().1
                    <= self.Drives@[j].view_drive().2,
                out@ == storage_text(drive_views(self.Drives@).take(i as int)),
            decreases self.Drives.len() - i,
        {
            assert(drive_views(self.Drives@).take(i + 1).drop_last() =~= drive_views(self.Drives@).take(
                i as int,
            ));
            let line = self.Drives[i].to_text()?;
            push_str(&mut out, line.as_str());
            i = i + 1;
        }
        assert(drive_views(self.Drives@).take(i as int) =~= drive_views(self.Drives@));
        Ok(string_from_chars(&out))
    }
}

proof fn lemma_storage_error_persists(records: Seq<Record>, i: int)
    requires
        0 < i <= records.len(),
        storage_spec(records.take(i)) is Err,
    ensures
        storage_spec(records) == storage_spec(records.take(i)),
    decreases records.len() - i,
{
    if i < records.len() {
        assert(records.take(i + 1).drop_last() =~= records.take(i));
        lemma_storage_error_persists(records, i + 1);
    } else {
        assert(records.take(i) =~= records);
    }
}


/// A logical-disk field that is present but not text makes its record a type
/// mismatch, whenever the fields read before it were text.
pub proof fn lemma_drive_mismatch(fields: Seq<Field>)
    requires
        mismatched(fields, "DeviceID"@, ValueKind::Text) || (text_spec(fields, "DeviceID"@) is Ok
            && mismatched(fields, "FreeSpace"@, ValueKind::Text)) || (text_spec(fields, "DeviceID"@) is Ok
            && text_spec(fields, "FreeSpace"@) is Ok && mismatched(fields, "Size"@, ValueKind::Text)),
    ensures
        drive_spec(fields) == Err::<DriveView, ErrorKind>(ErrorKind::TypeMismatch),
{
    if mismatched(fields, "DeviceID"@, ValueKind::Text) {
        lemma_text_mismatch(fields, "DeviceID"@);
    } else if mismatched(fields, "FreeSpace"@, ValueKind::Text) {
        lemma_text_mismatch(fields, "FreeSpace"@);
    } else {
        lemma_text_mismatch(fields, "Size"@);
    }
}

proof fn lemma_storage_prefix_ok(records: Seq<Record>, k: int)
    requires
        0 <= k <= records.len(),
        forall|j: int| 0 <= j < k ==> #[trigger] drive_spec(records[j].fields@) is Ok,
    ensures
        storage_spec(records.take(k)) is Ok,
    decreases k,
{
    if k > 0 {
        lemma_storage_prefix_ok(records, k - 1);
        assert(records.take(k).drop_last() =~= records.take(k - 1));
        assert(drive_spec(records[k - 1].fields@) is Ok);
    }
}

/// The first logical disk that cannot be read decides the error of the whole
/// read: no partial list is returned.
pub proof fn lemma_first_bad_drive_decides(records: Seq<Record>, i: int)
    requires
        0 <= i < records.len(),
        forall|j: int| 0 <= j < i ==> #[trigger] drive_spec(records[j].fields@) is Ok,
        drive_spec(records[i].fields@) is Err,
    ensures
        storage_spec(records) == Err::<Seq<DriveView>, ErrorKind>(
            drive_spec(records[i].fields@)->Err_0,
        ),
{
    lemma_storage_prefix_ok(records, i);
    assert(records.take(i + 1).drop_last() =~= records.take(i));
    assert(records.take(i + 1).last() == records[i]);
    lemma_storage_error_persists(records, i + 1);
}

} // verus!
