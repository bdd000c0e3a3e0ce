//! Packaging the C library: the cargo invocation, reading which library cargo built, and the
//! PROS template's id and manifest.

use vstd::prelude::*;
use vstd::string::*;

use crate::text::str_eq;

verus! {

/// What the C library is built for.
#[derive(Debug, Clone, Copy, PartialEq, Eq, Structural)]
pub enum FfiTarget {
    /// A PROS template (hard-float, without building std).
    Pros,
    /// VEXcode (soft-float, matching its ABI).
    Vexcode,
}

/// The extra cargo arguments for a target.
pub open spec fn spec_target_args(target: FfiTarget) -> Seq<Seq<char>> {
    match target {
        FfiTarget::Pros => seq!["--target=armv7a-vex-v5"@, "-Zbuild-std=core"@, "-Fv5gdb/pros"@],
        FfiTarget::Vexcode => seq!["--target=armv7a-none-eabi"@, "-Zbuild-std=core"@],
    }
}

/// Returns the extra cargo arguments for a target: a PROS build is a normal hard-float build that
/// does not build std (PROS manages the heap itself); a VEXcode build uses a soft-float target to
/// match VEXcode's ABI.
pub fn cargo_target_args(target: FfiTarget) -> (r: Vec<&'static str>)
    ensures
        r.deep_view() == spec_target_args(target),
{
    let mut args: Vec<&'static str> = Vec::new();
    match target {
        FfiTarget::Pros => {
            args.push("--target=armv7a-vex-v5");
            args.push("-Zbuild-std=core");
            args.push("-Fv5gdb/pros");
        },
        FfiTarget::Vexcode => {
            args.push("--target=armv7a-none-eabi");
            args.push("-Zbuild-std=core");
        },
    }
    assert(args.deep_view() =~= spec_target_args(target));
    args
}

/// The exit code to leave with after a failed command: the command's own, or 1 when it has none
/// (it was ended by a signal).
pub fn exit_code(code: Option<i32>) -> (r: i32)
    ensures
        r == match code {
            Some(c) => c,
            None => 1,
        },
{
    match code {
        Some(c) => c,
        None => 1,
    }
}

/// A PROS build targets `armv7a-vex-v5` with the `pros` feature of v5gdb; a VEXcode build targets
/// the soft-float `armv7a-none-eabi`; both build `core` themselves.
pub proof fn lemma_target_args()
    ensures
        spec_target_args(FfiTarget::Pros) =~= seq!["--target=armv7a-vex-v5"@, "-Zbuild-std=core"@, "-Fv5gdb/pros"@],
        spec_target_args(FfiTarget::Vexcode) =~= seq!["--target=armv7a-none-eabi"@, "-Zbuild-std=core"@],
{
}

/// The library is the one cargo reported last: after a static library artifact named `v5gdb`,
/// the path found is that artifact's first file; a message that is no such artifact (another
/// target, a `v5gdb` artifact that is not a static library, or any other message) leaves the path
/// found as it was.
pub proof fn lemma_last_library_wins(msgs: Seq<CargoMessageView>, m: CargoMessageView)
    ensures
        (m matches CargoMessageView::Artifact { name, kinds, files } && name == "v5gdb"@ && kinds.contains(
            "staticlib"@,
        )) ==> spec_library_path(msgs.push(m)) == Some(m->Artifact_files[0]),
        !(m matches CargoMessageView::Artifact { name, kinds, .. } && name == "v5gdb"@ && kinds.contains("staticlib"@))
            ==> spec_library_path(msgs.push(m)) == spec_library_path(msgs),
{
    assert(msgs.push(m).drop_last() =~= msgs);
    assert(msgs.push(m).last() == m);
}

/// A message cargo printed while building, as far as packaging reads it.
#[derive(Debug)]
pub enum CargoMessage {
    /// A built target: its name, its kinds (such as `lib` or `staticlib`) and the files made.
    Artifact { name: String, kinds: Vec<String>, files: Vec<String> },
    /// Any other message.
    Other,
}

/// A cargo message with its texts as character sequences.
pub enum CargoMessageView {
    Artifact { name: Seq<char>, kinds: Seq<Seq<char>>, files: Seq<Seq<char>> },
    Other,
}

impl View for CargoMessage {
    type V = CargoMessageView;

    open spec fn view(&self) -> CargoMessageView {
        match self {
            CargoMessage::Artifact { name, kinds, files } => CargoMessageView::Artifact {
                name: name@,
                kinds: kinds.deep_view(),
                files: files.deep_view(),
            },
            CargoMessage::Other => CargoMessageView::Other,
        }
    }
}

/// The messages `cargo_metadata::Message::parse_stream` reads from cargo's output, or `None` when
/// reading a line fails.
pub uninterp spec fn cargo_messages(out: Seq<u8>) -> Option<Seq<CargoMessageView>>;

/// Calls `cargo_metadata::Message::parse_stream` on cargo's output and converts each message: a
/// compiler artifact to its target's name, kinds (as `TargetKind` displays them) and file names,
/// anything else to `Other`. A read error (a line that is not UTF-8) gives `None`. The contract
/// names the result.
#[verifier::external_body]
fn parse_cargo_messages(out: &[u8]) -> (r: Option<Vec<CargoMessage>>)
    ensures
        r is Some <==> cargo_messages(out@) is Some,
        r matches Some(v) ==> cargo_messages(out@) == Some(v@.map_values(|m: CargoMessage| m@)),
{
    cargo_metadata::Message::parse_stream(out)
        .map(|m| m.map(|m| match m {
            cargo_metadata::Message::CompilerArtifact(a) => CargoMessage::Artifact {
                name: a.target.name,
                kinds: a.target.kind.iter().map(|k| k.to_string()).collect(),
                files: a.filenames.into_iter().map(|f| f.into_string()).collect(),
            },
            _ => CargoMessage::Other,
        }))
        .collect::<std::io::Result<Vec<CargoMessage>>>()
        .ok()
}

/// Whether a message is the static library `v5gdb`.
pub open spec fn spec_is_library(m: CargoMessageView) -> bool {
    match m {
        CargoMessageView::Artifact { name, kinds, .. } => name == "v5gdb"@ && kinds.contains("staticlib"@),
        CargoMessageView::Other => false,
    }
}

/// The first file of the last static library `v5gdb` among the messages, if any.
pub open spec fn spec_library_path(msgs: Seq<CargoMessageView>) -> Option<Seq<char>>
    decreases msgs.len(),
{
    if msgs.len() == 0 {
        None
    } else if spec_is_library(msgs.last()) {
        Some(msgs.last()->Artifact_files[0])
    } else {
        spec_library_path(msgs.drop_last())
    }
}

/// Whether every static library `v5gdb` among the messages names a file.
pub open spec fn spec_libraries_have_files(msgs: Seq<CargoMessageView>) -> bool {
    forall|i: int| 0 <= i < msgs.len() && #[trigger] spec_is_library(msgs[i]) ==> msgs[i]->Artifact_files.len() > 0
}

fn is_library(m: &CargoMessage) -> (r: bool)
    ensures
        r == spec_is_library(m@),
{
    match m {
        CargoMessage::Artifact { name, kinds, files } => {
            assert(m@ == CargoMessageView::Artifact { name: name@, kinds: kinds.deep_view(), files: files.deep_view() });
            if !str_eq(name.as_str(), "v5gdb") {
                return false;
            }
            let mut i: usize = 0;
            while i < kinds.len()
                invariant
                    i <= kinds@.len(),
                    name@ == "v5gdb"@,
                    m@ == (CargoMessageView::Artifact { name: name@, kinds: kinds.deep_view(), files: files.deep_view() }),
                    forall|j: int| 0 <= j < i ==> kinds.deep_view()[j] != "staticlib"@,
                decreases kinds@.len() - i,
            {
                if str_eq(kinds[i].as_str(), "staticlib") {
                    assert(kinds.deep_view()[i as int] == "staticlib"@);
                    assert(kinds.deep_view().contains("staticlib"@));
                    return true;
                }
                i = i + 1;
            }
            assert(!kinds.deep_view().contains("staticlib"@));
            false
        },
        CargoMessage::Other => false,
    }
}

/// The path of the static library `v5gdb` cargo built: the first file of the last such artifact.
pub fn staticlib_path(msgs: &Vec<CargoMessage>) -> (r: Option<String>)
    requires
        spec_libraries_have_files(msgs@.map_values(|m: CargoMessage| m@)),
    ensures
        r matches Some(p) ==> spec_library_path(msgs@.map_values(|m: CargoMessage| m@)) == Some(p@),
        r is None ==> spec_library_path(msgs@.map_values(|m: CargoMessage| m@)) is None,
{
    let ghost views = msgs@.map_values(|m: CargoMessage| m@);
    let mut found: Option<String> = None;
    let mut i: usize = 0;
    while i < msgs.len()
        invariant
            i <= msgs@.len(),
            views == msgs@.map_values(|m: CargoMessage| m@),
            spec_libraries_have_files(views),
            found matches Some(p) ==> spec_library_path(views.take(i as int)) == Some(p@),
            found is None ==> spec_library_path(views.take(i as int)) is None,
        decreases msgs@.len() - i,
    {
        proof {
            assert(views.take(i + 1).drop_last() =~= views.take(i as int));
            assert(views.take(i + 1).last() == msgs@[i as int]@);
        }
        if is_library(&msgs[i]) {
            match &msgs[i] {
                CargoMessage::Artifact { files, .. } => {
                    assert(spec_is_library(views[i as int]));
                    found = Some(files[0].clone());
                },
                CargoMessage::Other => {},
            }
        }
        i = i + 1;
    }
    assert(views.take(msgs@.len() as int) =~= views);
    found
}

/// Reads cargo's output and returns the path of the static library `v5gdb` it built, if any.
/// Returns `None` when the output cannot be read or such a library names no file.
pub fn built_library(cargo_stdout: &[u8]) -> (r: Option<Option<String>>)
    ensures
        match cargo_messages(cargo_stdout@) {
            None => r is None,
            Some(msgs) => if spec_libraries_have_files(msgs) {
                r matches Some(p) && match p {
                    Some(path) => spec_library_path(msgs) == Some(path@),
                    None => spec_library_path(msgs) is None,
                }
            } else {
                r is None
            },
        },
{
    let msgs = match parse_cargo_messages(cargo_stdout) {
        Some(m) => m,
        None => {
            return None;
        },
    };
    let ghost views = msgs@.map_values(|m: CargoMessage| m@);
    let mut i: usize = 0;
    while i < msgs.len()
        invariant
            i <= msgs@.len(),
            views == msgs@.map_values(|m: CargoMessage| m@),
            cargo_messages(cargo_stdout@) == Some(views),
            forall|j: int| 0 <= j < i && #[trigger] spec_is_library(views[j]) ==> views[j]->Artifact_files.len() > 0,
        decreases msgs@.len() - i,
    {
        if is_library(&msgs[i]) {
            match &msgs[i] {
                CargoMessage::Artifact { files, .. } => {
                    if files.len() == 0 {
                        proof {
                            assert(views[i as int] == msgs@[i as int]@);
                            assert(spec_is_library(views[i as int]));
                            assert(views[i as int]->Artifact_files.len() == 0);
                            assert(!spec_libraries_have_files(views));
                        }
                        return None;
                    }
                },
                CargoMessage::Other => {},
            }
        }
        i = i + 1;
    }
    Some(staticlib_path(&msgs))
}

/// A JSON value: the model in which the package's `Cargo.toml` is read and the template manifest
/// is written.
#[derive(Debug)]
pub enum JsonValue {
    /// `null`.
    Null,
    /// `true` or `false`.
    Bool(bool),
    /// A number, as its JSON text.
    Number(String),
    /// A string.
    Str(String),
    /// An array.
    Array(Vec<JsonValue>),
    /// An object's entries, in order.
    Object(Vec<(String, JsonValue)>),
}

/// The value of the first entry named `key`, or `null` when there is none.
pub open spec fn spec_entry(entries: Seq<(String, JsonValue)>, key: Seq<char>) -> JsonValue
    decreases entries.len(),
{
    if entries.len() == 0 {
        JsonValue::Null
    } else if entries[0].0@ == key {
        entries[0].1
    } else {
        spec_entry(entries.drop_first(), key)
    }
}

/// The field `key` of a value (as `value["key"]` reads it): the value of the object's first entry
/// named `key`, or `null` when there is none or the value is not an object.
pub open spec fn spec_field(value: JsonValue, key: Seq<char>) -> JsonValue {
    match value {
        JsonValue::Object(entries) => spec_entry(entries@, key),
        _ => JsonValue::Null,
    }
}

/// The first entry named `key` is at `i`.
proof fn lemma_entry_at(entries: Seq<(String, JsonValue)>, key: Seq<char>, i: int)
    requires
        0 <= i < entries.len(),
        entries[i].0@ == key,
        forall|j: int| 0 <= j < i ==> (#[trigger] entries[j]).0@ != key,
    ensures
        spec_entry(entries, key) == entries[i].1,
    decreases i,
{
    if i > 0 {
        let rest = entries.drop_first();
        assert forall|j: int| 0 <= j < i - 1 implies (#[trigger] rest[j]).0@ != key by {
            assert(rest[j] == entries[j + 1]);
        }
        lemma_entry_at(rest, key, i - 1);
    }
}

/// No entry is named `key`.
proof fn lemma_entry_absent(entries: Seq<(String, JsonValue)>, key: Seq<char>)
    requires
        forall|j: int| 0 <= j < entries.len() ==> (#[trigger] entries[j]).0@ != key,
    ensures
        spec_entry(entries, key) == JsonValue::Null,
    decreases entries.len(),
{
    if entries.len() > 0 {
        let rest = entries.drop_first();
        assert forall|j: int| 0 <= j < rest.len() implies (#[trigger] rest[j]).0@ != key by {
            assert(rest[j] == entries[j + 1]);
        }
        lemma_entry_absent(rest, key);
    }
}

/// Changing the value of an entry named otherwise leaves the lookup of `key` as it was.
proof fn lemma_entry_update(entries: Seq<(String, JsonValue)>, i: int, value: JsonValue, key: Seq<char>)
    requires
        0 <= i < entries.len(),
        entries[i].0@ != key,
    ensures
        spec_entry(entries.update(i, (entries[i].0, value)), key) == spec_entry(entries, key),
    decreases entries.len(),
{
    let updated = entries.update(i, (entries[i].0, value));
    if i > 0 {
        assert(updated.drop_first() =~= entries.drop_first().update(i - 1, (entries[i].0, value)));
        lemma_entry_update(entries.drop_first(), i - 1, value, key);
    } else {
        assert(updated.drop_first() =~= entries.drop_first());
    }
}

/// Takes the value of the first entry named `key` out of `entries`, leaving `null` in its place.
fn take_entry(entries: &mut Vec<(String, JsonValue)>, key: &str) -> (r: JsonValue)
    ensures
        r == spec_entry(old(entries)@, key@),
        forall|k: Seq<char>| k != key@ ==> spec_entry(final(entries)@, k) == spec_entry(old(entries)@, k),
{
    let mut i: usize = 0;
    while i < entries.len()
        invariant
            i <= entries@.len(),
            entries@ == old(entries)@,
            forall|j: int| 0 <= j < i ==> (#[trigger] entries@[j]).0@ != key@,
        decreases entries@.len() - i,
    {
        if str_eq(entries[i].0.as_str(), key) {
            let ghost before = entries@;
            let (name, value) = entries.remove(i);
            entries.insert(i, (name, JsonValue::Null));
            proof {
                lemma_entry_at(before, key@, i as int);
                assert(entries@ =~= before.update(i as int, (before[i as int].0, JsonValue::Null)));
                assert forall|k: Seq<char>| k != key@ implies spec_entry(entries@, k) == spec_entry(before, k) by {
                    lemma_entry_update(before, i as int, JsonValue::Null, k);
                }
            }
            return value;
        }
        i = i + 1;
    }
    proof {
        lemma_entry_absent(entries@, key@);
    }
    JsonValue::Null
}

/// Takes the field `key` out of a value (see [`spec_field`]), leaving `null` in its place; every
/// other field stays as it was.
pub fn take_field(value: &mut JsonValue, key: &str) -> (r: JsonValue)
    ensures
        r == spec_field(*old(value), key@),
        forall|k: Seq<char>| k != key@ ==> spec_field(*final(value), k) == spec_field(*old(value), k),
{
    let mut taken = JsonValue::Null;
    std::mem::swap(&mut taken, value);
    match taken {
        JsonValue::Object(mut entries) => {
            let r = take_entry(&mut entries, key);
            *value = JsonValue::Object(entries);
            r
        },
        other => {
            *value = other;
            JsonValue::Null
        },
    }
}

/// The package's PROS metadata, as the template manifest copies it.
#[derive(Debug)]
pub struct ProsPackage {
    /// `package.version`, a string.
    pub version: String,
    /// `package.name`.
    pub name: JsonValue,
    /// `package.version`, as a value.
    pub version_value: JsonValue,
    /// `package.metadata.pros.metadata`.
    pub metadata: JsonValue,
    /// `package.metadata.pros.supported_kernels`.
    pub supported_kernels: JsonValue,
    /// `package.metadata.pros.target`.
    pub target: JsonValue,
}

/// The package's PROS metadata read from its `Cargo.toml` (as a JSON value): `package.version`,
/// which must be a string, `package.name`, and the `metadata`, `supported_kernels` and `target` of
/// `package.metadata.pros` (`null` where missing). `None` when the version is not a string.
pub fn pros_package(manifest: JsonValue) -> (r: Option<ProsPackage>)
    ensures
        ({
            let package = spec_field(manifest, "package"@);
            let pros = spec_field(spec_field(package, "metadata"@), "pros"@);
            match spec_field(package, "version"@) {
                JsonValue::Str(s) => r matches Some(p) && p.version@ == s@ && p.version_value == JsonValue::Str(s)
                    && p.name == spec_field(package, "name"@) && p.metadata == spec_field(pros, "metadata"@)
                    && p.supported_kernels == spec_field(pros, "supported_kernels"@) && p.target == spec_field(
                    pros,
                    "target"@,
                ),
                _ => r is None,
            }
        }),
{
    proof {
        reveal_strlit("version");
        reveal_strlit("name");
        reveal_strlit("metadata");
        reveal_strlit("supported_kernels");
        reveal_strlit("target");
        assert("name"@ != "version"@) by {
            assert("name"@.len() != "version"@.len());
        }
        assert("metadata"@ != "version"@ && "metadata"@ != "name"@) by {
            assert("metadata"@.len() != "version"@.len() && "metadata"@.len() != "name"@.len());
        }
        assert("supported_kernels"@ != "metadata"@) by {
            assert("supported_kernels"@.len() != "metadata"@.len());
        }
        assert("target"@ != "metadata"@ && "target"@ != "supported_kernels"@) by {
            assert("target"@.len() != "metadata"@.len() && "target"@.len() != "supported_kernels"@.len());
        }
    }
    let mut root = manifest;
    let mut package = take_field(&mut root, "package");
    let version_value = take_field(&mut package, "version");
    let name = take_field(&mut package, "name");
    let mut meta = take_field(&mut package, "metadata");
    let mut pros = take_field(&mut meta, "pros");
    let metadata = take_field(&mut pros, "metadata");
    let supported_kernels = take_field(&mut pros, "supported_kernels");
    let target = take_field(&mut pros, "target");
    match version_value {
        JsonValue::Str(s) => {
            let version = s.clone();
            Some(
                ProsPackage {
                    version,
                    name,
                    version_value: JsonValue::Str(s),
                    metadata,
                    supported_kernels,
                    target,
                },
            )
        },
        _ => None,
    }
}

/// The template's id: the package name `v5gdb`, `@` and the version.
pub fn template_id(version: &str) -> (r: String)
    ensures
        r@ == "v5gdb@"@ + version@,
{
    let mut id = String::from_str("v5gdb@");
    id.append(version);
    id
}

/// Whether a value is the string `text`.
pub open spec fn spec_is_str(value: JsonValue, text: Seq<char>) -> bool {
    value matches JsonValue::Str(s) && s@ == text
}

/// Whether a value is the array of the strings `texts`, in order.
pub open spec fn spec_is_str_array(value: JsonValue, texts: Seq<Seq<char>>) -> bool {
    value matches JsonValue::Array(items) && items@.len() == texts.len() && forall|i: int|
        0 <= i < texts.len() ==> spec_is_str(#[trigger] items@[i], texts[i])
}

/// Whether `entry` is the key `key` with the value `value`.
pub open spec fn spec_entry_is(entry: (String, JsonValue), key: Seq<char>, value: JsonValue) -> bool {
    entry.0@ == key && entry.1 == value
}

/// Whether a value is the template manifest for a package and the template's files: a PROS
/// external template whose state holds the package's PROS metadata, name, supported kernels and
/// target, the files as system files, no user files, and the package version.
pub open spec fn spec_is_pros_manifest(value: JsonValue, pkg: ProsPackage, files: Seq<Seq<char>>) -> bool {
    &&& value matches JsonValue::Object(top) && top@.len() == 2
    &&& value->Object_0@[0].0@ == "py/object"@
    &&& spec_is_str(value->Object_0@[0].1, "pros.conductor.templates.external_template.ExternalTemplate"@)
    &&& value->Object_0@[1].0@ == "py/state"@
    &&& value->Object_0@[1].1 matches JsonValue::Object(state) && state@.len() == 7
    &&& {
        let state = value->Object_0@[1].1->Object_0@;
        &&& spec_entry_is(state[0], "metadata"@, pkg.metadata)
        &&& spec_entry_is(state[1], "name"@, pkg.name)
        &&& spec_entry_is(state[2], "supported_kernels"@, pkg.supported_kernels)
        &&& spec_entry_is(state[3], "target"@, pkg.target)
        &&& state[4].0@ == "system_files"@ && spec_is_str_array(state[4].1, files)
        &&& state[5].0@ == "user_files"@ && spec_is_str_array(state[5].1, Seq::empty())
        &&& spec_entry_is(state[6], "version"@, pkg.version_value)
    }
}

/// Builds the template manifest for the package and the template's files (paths relative to the
/// template).
pub fn pros_manifest(pkg: ProsPackage, files: &Vec<String>) -> (r: JsonValue)
    ensures
        spec_is_pros_manifest(r, pkg, files.deep_view()),
{
    let ProsPackage { version: _, name, version_value, metadata, supported_kernels, target } = pkg;
    let mut listed: Vec<JsonValue> = Vec::new();
    let mut i: usize = 0;
    while i < files.len()
        invariant
            i <= files@.len(),
            listed@.len() == i,
            forall|j: int| 0 <= j < i ==> spec_is_str(#[trigger] listed@[j], files.deep_view()[j]),
        decreases files@.len() - i,
    {
        listed.push(JsonValue::Str(files[i].clone()));
        i = i + 1;
    }
    let mut state: Vec<(String, JsonValue)> = Vec::new();
    state.push((String::from_str("metadata"), metadata));
    state.push((String::from_str("name"), name));
    state.push((String::from_str("supported_kernels"), supported_kernels));
    state.push((String::from_str("target"), target));
    state.push((String::from_str("system_files"), JsonValue::Array(listed)));
    state.push((String::from_str("user_files"), JsonValue::Array(Vec::new())));
    state.push((String::from_str("version"), version_value));
    let mut top: Vec<(String, JsonValue)> = Vec::new();
    top.push(
        (
            String::from_str("py/object"),
            JsonValue::Str(String::from_str("pros.conductor.templates.external_template.ExternalTemplate")),
        ),
    );
    top.push((String::from_str("py/state"), JsonValue::Object(state)));
    JsonValue::Object(top)
}

} // verus!
