use vstd::prelude::*;
use vstd::string::StringExecFns;

use crate::error::Error;
use crate::error::ErrorKind;
use crate::manifest::names_view;

verus! {

/// The fixed name of the firmware image expected directly under the project
/// root.
pub open spec fn firmware_file_name() -> Seq<char> {
    "OVMF.fd"@
}

/// The fixed name of the emulator executable looked up on the search path.
pub open spec fn emulator_file_name() -> Seq<char> {
    "qemu-system-x86_64"@
}

/// A directory entry path: the directory, a separator, the entry name.
pub open spec fn joined_path(dir: Seq<char>, name: Seq<char>) -> Seq<char> {
    dir + "/"@ + name
}

/// Joins a directory and an entry name with a separator.
fn join_path(dir: &String, name: &str) -> (r: String)
    ensures
        r@ == joined_path(dir@, name@),
{
    let mut r = dir.clone();
    r.append("/");
    r.append(name);
    r
}

/// The position of the first set flag, if any flag is set.
pub open spec fn first_flagged(flags: Seq<bool>) -> Option<int>
    decreases flags,
{
    if flags.len() == 0 {
        None
    } else if flags[0] {
        Some(0int)
    } else {
        match first_flagged(flags.drop_first()) {
            Some(i) => Some(i + 1),
            None => None,
        }
    }
}

/// The first set flag is the one a front-to-back scan finds.
proof fn lemma_first_flagged_is(flags: Seq<bool>, i: int)
    requires
        0 <= i < flags.len(),
        flags[i],
        forall|j: int| 0 <= j < i ==> !flags[j],
    ensures
        first_flagged(flags) == Some(i),
    decreases flags,
{
    if i > 0 {
        lemma_first_flagged_is(flags.drop_first(), i - 1);
    }
}

/// Where no flag is set, there is no first set flag.
proof fn lemma_first_flagged_none(flags: Seq<bool>)
    requires
        forall|j: int| 0 <= j < flags.len() ==> !flags[j],
    ensures
        first_flagged(flags) is None,
    decreases flags,
{
    if flags.len() > 0 {
        lemma_first_flagged_none(flags.drop_first());
    }
}

/// Picks the project root: the first ancestor of the working directory (from
/// innermost to outermost) that holds a manifest file. `has_manifest[i]` says
/// whether a manifest file lies directly under `ancestors[i]`.
pub fn get_project_root(ancestors: &Vec<String>, has_manifest: &Vec<bool>) -> (r: Result<
    String,
    Error,
>)
    requires
        ancestors@.len() == has_manifest@.len(),
    ensures
        r is Ok <==> first_flagged(has_manifest@) is Some,
        r matches Ok(p) ==> p@ == ancestors@[first_flagged(has_manifest@)->Some_0]@,
        r matches Err(e) ==> e@.kind == ErrorKind::ProjectRootNotFound && e@.msg
            == "project root directory not found"@,
{
    let mut i: usize = 0;
    while i < has_manifest.len()
        invariant
            i <= has_manifest@.len(),
            ancestors@.len() == has_manifest@.len(),
            forall|j: int| 0 <= j < i ==> !has_manifest@[j],
        decreases has_manifest@.len() - i,
    {
        if has_manifest[i] {
            proof {
                lemma_first_flagged_is(has_manifest@, i as int);
            }
            return Ok(ancestors[i].clone());
        }
        i += 1;
    }
    proof {
        lemma_first_flagged_none(has_manifest@);
    }
    Err(Error::new(ErrorKind::ProjectRootNotFound, String::from_str("project root directory not found")))
}

/// Locates the emulator executable: the first directory of the search path
/// that holds it, joined with its fixed name. `has_emulator[i]` says whether
/// the executable lies directly under `search_dirs[i]`.
pub fn get_qemu_executable(search_dirs: &Vec<String>, has_emulator: &Vec<bool>) -> (r: Result<
    String,
    Error,
>)
    requires
        search_dirs@.len() == has_emulator@.len(),
    ensures
        r is Ok <==> first_flagged(has_emulator@) is Some,
        r matches Ok(p) ==> p@ == joined_path(
            search_dirs@[first_flagged(has_emulator@)->Some_0]@,
            emulator_file_name(),
        ),
        r matches Err(e) ==> e@.kind == ErrorKind::EmulatorNotFound && e@.msg
            == emulator_file_name() + " is not found"@,
{
    let mut i: usize = 0;
    while i < has_emulator.len()
        invariant
            i <= has_emulator@.len(),
            search_dirs@.len() == has_emulator@.len(),
            forall|j: int| 0 <= j < i ==> !has_emulator@[j],
        decreases has_emulator@.len() - i,
    {
        if has_emulator[i] {
            proof {
                lemma_first_flagged_is(has_emulator@, i as int);
            }
            return Ok(join_path(&search_dirs[i], "qemu-system-x86_64"));
        }
        i += 1;
    }
    proof {
        lemma_first_flagged_none(has_emulator@);
    }
    let mut msg = String::from_str("qemu-system-x86_64");
    msg.append(" is not found");
    Err(Error::new(ErrorKind::EmulatorNotFound, msg))
}

/// The path where the firmware image is expected: directly under the project
/// root, under its fixed name.
pub fn ovmf_path(project_root_dir: &String) -> (r: String)
    ensures
        r@ == joined_path(project_root_dir@, firmware_file_name()),
{
    join_path(project_root_dir, "OVMF.fd")
}

/// Locates the firmware image under the project root. `firmware_present` says
/// whether the file at [`ovmf_path`] exists.
pub fn get_ovmf(project_root_dir: &String, firmware_present: bool) -> (r: Result<String, Error>)
    ensures
        r is Ok <==> firmware_present,
        r matches Ok(p) ==> p@ == joined_path(project_root_dir@, firmware_file_name()),
        r matches Err(e) ==> e@.kind == ErrorKind::FirmwareNotFound && e@.msg
            == firmware_file_name() + " is not found"@,
{
    if firmware_present {
        Ok(ovmf_path(project_root_dir))
    } else {
        let mut msg = String::from_str("OVMF.fd");
        msg.append(" is not found");
        Err(Error::new(ErrorKind::FirmwareNotFound, msg))
    }
}

/// The fixed build-output subpath convention: where the compiled artifact of a
/// binary name is expected under the project root.
pub open spec fn uefi_app_path_spec(root: Seq<char>, name: Seq<char>) -> Seq<char> {
    root + "/target/x86_64-unknown-uefi/debug/"@ + name + ".efi"@
}

/// The path where the compiled artifact of the named binary is expected.
pub fn uefi_app_path(project_root_dir: &String, app_name: &str) -> (r: String)
    ensures
        r@ == uefi_app_path_spec(project_root_dir@, app_name@),
{
    let mut r = project_root_dir.clone();
    r.append("/target/x86_64-unknown-uefi/debug/");
    r.append(app_name);
    r.append(".efi");
    r
}

/// Locates the compiled artifact of the named binary under the project root.
/// `artifact_present` says whether the file at [`uefi_app_path`] exists.
pub fn get_uefi_app(project_root_dir: &String, app_name: &str, artifact_present: bool) -> (r:
    Result<String, Error>)
    ensures
        r is Ok <==> artifact_present,
        r matches Ok(p) ==> p@ == uefi_app_path_spec(project_root_dir@, app_name@),
        r matches Err(e) ==> e@.kind == ErrorKind::ArtifactNotFound && e@.msg == app_name@
            + " is not found"@,
{
    if artifact_present {
        Ok(uefi_app_path(project_root_dir, app_name))
    } else {
        let mut msg = String::from_str(app_name);
        msg.append(" is not found");
        Err(Error::new(ErrorKind::ArtifactNotFound, msg))
    }
}

/// The root of the staged boot image under the system temp directory: it is
/// handed to the emulator as a raw FAT drive.
pub open spec fn uefi_root_spec(temp_dir: Seq<char>) -> Seq<char> {
    temp_dir + "/UEFI"@
}

/// The nested boot directory of the staged image.
pub open spec fn boot_dir_spec(temp_dir: Seq<char>) -> Seq<char> {
    temp_dir + "/UEFI/EFI/BOOT"@
}

/// The boot-loader file the staged artifact is copied to.
pub open spec fn boot_file_spec(temp_dir: Seq<char>) -> Seq<char> {
    temp_dir + "/UEFI/EFI/BOOT/BOOTX64.EFI"@
}

/// The paths of the boot staging layout under the system temp directory.
pub struct StagingPaths {
    pub uefi_root: String,
    pub boot_dir: String,
    pub boot_file: String,
}

/// Computes the staging layout under the given temp directory: the image
/// root, the boot directory to create, and the boot-loader file the artifact
/// is copied to.
pub fn staging_paths(temp_dir: &String) -> (r: StagingPaths)
    ensures
        r.uefi_root@ == uefi_root_spec(temp_dir@),
        r.boot_dir@ == boot_dir_spec(temp_dir@),
        r.boot_file@ == boot_file_spec(temp_dir@),
{
    let mut uefi_root = temp_dir.clone();
    uefi_root.append("/UEFI");
    let mut boot_dir = temp_dir.clone();
    boot_dir.append("/UEFI/EFI/BOOT");
    let mut boot_file = temp_dir.clone();
    boot_file.append("/UEFI/EFI/BOOT/BOOTX64.EFI");
    StagingPaths { uefi_root, boot_dir, boot_file }
}

/// A model of the filesystem state that staging touches: the set of existing
/// directories and the contents of existing files, each named by its path.
#[verifier::ext_equal]
pub struct FsModel {
    pub dirs: Set<Seq<char>>,
    pub files: Map<Seq<char>, Seq<u8>>,
}

/// What staging an artifact into the boot layout does to the filesystem:
/// the staging directories exist afterwards whether or not they already did,
/// and the boot-loader file holds the artifact bytes, overwriting any prior
/// contents.
pub open spec fn staged(fs: FsModel, temp_dir: Seq<char>, artifact: Seq<u8>) -> FsModel {
    FsModel {
        dirs: fs.dirs.insert(uefi_root_spec(temp_dir)).insert(temp_dir + "/UEFI/EFI"@).insert(
            boot_dir_spec(temp_dir),
        ),
        files: fs.files.insert(boot_file_spec(temp_dir), artifact),
    }
}

/// Law: staging a given artifact twice to the same temp path leaves the
/// directories and file contents exactly as staging it once does.
pub proof fn lemma_staging_idempotent(fs: FsModel, temp_dir: Seq<char>, artifact: Seq<u8>)
    ensures
        staged(staged(fs, temp_dir, artifact), temp_dir, artifact) == staged(fs, temp_dir, artifact),
{
    let once = staged(fs, temp_dir, artifact);
    let twice = staged(once, temp_dir, artifact);
    assert(twice.dirs =~= once.dirs);
    assert(twice.files =~= once.files);
    assert(twice =~= once);
}

/// The read-only raw pflash drive argument pointing at the firmware image.
pub open spec fn pflash_arg(ovmf: Seq<char>) -> Seq<char> {
    "if=pflash,format=raw,readonly=on,file="@ + ovmf
}

/// The raw FAT drive argument pointing at the staging root.
pub open spec fn fat_arg(uefi_root: Seq<char>) -> Seq<char> {
    "format=raw,file=fat:rw:"@ + uefi_root
}

/// The emulator's argument list: its fixed prefix in order, then the user's
/// passthrough arguments appended at the end.
pub open spec fn qemu_args_spec(
    ovmf: Seq<char>,
    uefi_root: Seq<char>,
    extra: Seq<Seq<char>>,
) -> Seq<Seq<char>> {
    seq!["-drive"@, pflash_arg(ovmf), "-drive"@, fat_arg(uefi_root)] + extra
}

/// Builds the emulator's argument list: the read-only pflash drive for the
/// firmware image, the raw FAT drive for the staging root, then the user's
/// passthrough arguments unchanged and in order.
pub fn qemu_args(ovmf: &String, uefi_root: &String, extra: &Vec<String>) -> (r: Vec<String>)
    ensures
        names_view(r@) == qemu_args_spec(ovmf@, uefi_root@, names_view(extra@)),
{
    let ghost all = names_view(extra@);
    let mut r: Vec<String> = Vec::new();
    r.push(String::from_str("-drive"));
    let mut pflash = String::from_str("if=pflash,format=raw,readonly=on,file=");
    pflash.append(ovmf.as_str());
    r.push(pflash);
    r.push(String::from_str("-drive"));
    let mut fat = String::from_str("format=raw,file=fat:rw:");
    fat.append(uefi_root.as_str());
    r.push(fat);
    let mut i: usize = 0;
    while i < extra.len()
        invariant
            i <= extra@.len(),
            all == names_view(extra@),
            names_view(r@) =~= qemu_args_spec(ovmf@, uefi_root@, all.take(i as int)),
        decreases extra@.len() - i,
    {
        let ghost prev = r@;
        r.push(extra[i].clone());
        proof {
            assert(all.take(i as int).len() == i);
            assert(names_view(prev).len() == prev.len());
            assert(prev.len() == 4 + i);
            assert(r@ == prev.push(extra@[i as int]));
            assert(all.take(i + 1) =~= all.take(i as int).push(all[i as int]));
            assert forall|k: int| 0 <= k < names_view(r@).len() implies names_view(r@)[k]
                == qemu_args_spec(ovmf@, uefi_root@, all.take(i + 1))[k] by {
                if k < prev.len() {
                    assert(r@[k] == prev[k]);
                    assert(names_view(r@)[k] == prev[k]@);
                    assert(names_view(prev)[k] == prev[k]@);
                    assert(names_view(prev)[k] == qemu_args_spec(
                        ovmf@,
                        uefi_root@,
                        all.take(i as int),
                    )[k]);
                    assert(qemu_args_spec(ovmf@, uefi_root@, all.take(i as int))[k]
                        == qemu_args_spec(ovmf@, uefi_root@, all.take(i + 1))[k]);
                } else {
                    assert(k == prev.len());
                    assert(r@[k] == extra@[i as int]);
                    assert(names_view(r@)[k] == extra@[i as int]@);
                    assert(qemu_args_spec(ovmf@, uefi_root@, all.take(i + 1))[k] == all.take(
                        i + 1,
                    )[k - 4]);
                    assert(all.take(i + 1)[k - 4] == all[i as int]);
                    assert(all[i as int] == extra@[i as int]@);
                }
            }
            assert(names_view(r@) =~= qemu_args_spec(ovmf@, uefi_root@, all.take(i + 1)));
        }
        i += 1;
    }
    proof {
        assert(all.take(extra@.len() as int) =~= all);
    }
    r
}

} // verus!
