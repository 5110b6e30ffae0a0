//! File-form configuration loading, with a strict schema.
//!
//! The configuration file is a structured document with a `boot` section
//! (`kernel` and `initrd` required, `command_line` and `disks` optional)
//! and optional top-level `cpu_count`, `memory_size`, and
//! `additional_disks` fields. An unrecognized or duplicated field anywhere,
//! a missing required field, or a wrongly-typed field makes loading fail
//! deterministically; no device construction is ever attempted from a
//! rejected document. The effective disk list is `boot.disks` followed by
//! `additional_disks`, in that order, and the flag-form defaults apply to
//! the optional sizing and command-line fields.
//!
//! The surrounding binary decodes the raw file bytes into the `ConfigValue`
//! tree; everything the document means is decided here.

use vstd::prelude::*;

use crate::vmspec::{
    FlagOpts, VmSpec, DEFAULT_CPU_COUNT, DEFAULT_MEMORY_SIZE, default_command_line,
    flags_spec_matches, resolve_flags,
};

verus! {

/// A decoded configuration document: the structured value tree the
/// surrounding binary hands in after decoding the file's bytes.
pub enum ConfigValue {
    Null,
    Bool(bool),
    UInt(u64),
    Text(String),
    List(Vec<ConfigValue>),
    Record(Vec<(String, ConfigValue)>),
}

/// Why configuration loading rejected a document.
#[derive(Debug)]
pub enum ConfigError {
    /// The document is not a record at top level.
    NotARecord,
    /// The named field is not part of the schema (strict schema).
    UnknownField(String),
    /// The named field occurs more than once in one record.
    DuplicateField(String),
    /// The required `boot` section is absent.
    MissingBoot,
    /// The `boot` field is present but not a record.
    BootNotARecord,
    /// The required `boot.kernel` field is absent.
    MissingKernel,
    /// The required `boot.initrd` field is absent.
    MissingInitrd,
    /// The named field is present but has the wrong type.
    FieldType(String),
}

/// The key of the record entry at position `i`.
pub open spec fn key_at(es: Seq<(String, ConfigValue)>, i: int) -> Seq<char> {
    es[i].0@
}

/// First-match lookup of `key` among a record's entries.
pub open spec fn lookup(es: Seq<(String, ConfigValue)>, key: Seq<char>) -> Option<ConfigValue>
    decreases es.len(),
{
    if es.len() == 0 {
        Option::None
    } else if es[0].0@ == key {
        Option::Some(es[0].1)
    } else {
        lookup(es.drop_first(), key)
    }
}

/// The top-level fields the schema knows.
pub open spec fn known_top_key(k: Seq<char>) -> bool {
    ||| k == "boot"@
    ||| k == "cpu_count"@
    ||| k == "additional_disks"@
    ||| k == "memory_size"@
}

/// The `boot` section fields the schema knows.
pub open spec fn known_boot_key(k: Seq<char>) -> bool {
    ||| k == "kernel"@
    ||| k == "initrd"@
    ||| k == "command_line"@
    ||| k == "disks"@
}

/// Whether a key is known at the given level (`boot` section or top level).
pub open spec fn level_key_known(boot_level: bool, k: Seq<char>) -> bool {
    if boot_level {
        known_boot_key(k)
    } else {
        known_top_key(k)
    }
}

/// Every key of the record is known at the given level.
pub open spec fn keys_known(boot_level: bool, es: Seq<(String, ConfigValue)>) -> bool {
    forall|i: int| 0 <= i < es.len() ==> level_key_known(boot_level, #[trigger] key_at(es, i))
}

/// No key occurs twice in the record.
pub open spec fn distinct_keys(es: Seq<(String, ConfigValue)>) -> bool {
    forall|i: int, j: int|
        0 <= i < j < es.len() ==> #[trigger] key_at(es, i) != #[trigger] key_at(es, j)
}

/// Every element of the sequence is text.
pub open spec fn all_text(items: Seq<ConfigValue>) -> bool {
    forall|i: int| 0 <= i < items.len() ==> #[trigger] items[i] is Text
}

/// The value is a list whose elements are all text.
pub open spec fn text_list_shape(v: ConfigValue) -> bool {
    v matches ConfigValue::List(items) && all_text(items@)
}

/// An absent field, or one holding an unsigned integer.
pub open spec fn opt_uint_ok(o: Option<ConfigValue>) -> bool {
    match o {
        Option::None => true,
        Option::Some(v) => v is UInt,
    }
}

/// An absent field, or one holding text.
pub open spec fn opt_text_ok(o: Option<ConfigValue>) -> bool {
    match o {
        Option::None => true,
        Option::Some(v) => v is Text,
    }
}

/// An absent field, or one holding a list of text.
pub open spec fn opt_text_list_ok(o: Option<ConfigValue>) -> bool {
    match o {
        Option::None => true,
        Option::Some(v) => text_list_shape(v),
    }
}

/// The characters of a text value (empty for any other shape).
pub open spec fn text_of(v: ConfigValue) -> Seq<char> {
    match v {
        ConfigValue::Text(s) => s@,
        _ => Seq::empty(),
    }
}

/// The character sequences of a sequence of text values.
pub open spec fn text_views(items: Seq<ConfigValue>) -> Seq<Seq<char>> {
    items.map_values(|it: ConfigValue| text_of(it))
}

/// The character sequences of a sequence of strings.
pub open spec fn string_views(ss: Seq<String>) -> Seq<Seq<char>> {
    ss.map_values(|s: String| s@)
}

/// The paths named by an optional list-of-text field: its elements' text,
/// in order, or the empty sequence when the field is absent.
pub open spec fn opt_path_views(o: Option<ConfigValue>) -> Seq<Seq<char>> {
    match o {
        Option::Some(ConfigValue::List(items)) => text_views(items@),
        _ => Seq::empty(),
    }
}

/// The top-level record's entries (empty for a non-record document).
pub open spec fn top_entries(v: ConfigValue) -> Seq<(String, ConfigValue)> {
    match v {
        ConfigValue::Record(es) => es@,
        _ => Seq::empty(),
    }
}

/// The `boot` section's entries (empty when absent or not a record).
pub open spec fn boot_entries(v: ConfigValue) -> Seq<(String, ConfigValue)> {
    match lookup(top_entries(v), "boot"@) {
        Option::Some(ConfigValue::Record(bs)) => bs@,
        _ => Seq::empty(),
    }
}

/// The document has a `boot` field holding a record.
pub open spec fn has_boot_record(v: ConfigValue) -> bool {
    lookup(top_entries(v), "boot"@) matches Option::Some(b) && b is Record
}

/// What a well-formed `boot` section is: a record of known, unrepeated
/// keys, with `kernel` and `initrd` present as text, and `command_line`
/// and `disks`, when present, text and a list of text respectively.
pub open spec fn boot_section_ok(b: ConfigValue) -> bool {
    &&& b matches ConfigValue::Record(bs)
    &&& keys_known(true, bs@)
    &&& distinct_keys(bs@)
    &&& lookup(bs@, "kernel"@) matches Option::Some(k) && k is Text
    &&& lookup(bs@, "initrd"@) matches Option::Some(ir) && ir is Text
    &&& opt_text_ok(lookup(bs@, "command_line"@))
    &&& opt_text_list_ok(lookup(bs@, "disks"@))
}

/// What a loadable document is: a record of known, unrepeated top-level
/// keys, with a well-formed `boot` section, and the optional sizing and
/// disk fields well-typed when present.
pub open spec fn config_ok(v: ConfigValue) -> bool {
    &&& v is Record
    &&& keys_known(false, top_entries(v))
    &&& distinct_keys(top_entries(v))
    &&& lookup(top_entries(v), "boot"@) matches Option::Some(b) && boot_section_ok(b)
    &&& opt_uint_ok(lookup(top_entries(v), "cpu_count"@))
    &&& opt_uint_ok(lookup(top_entries(v), "memory_size"@))
    &&& opt_text_list_ok(lookup(top_entries(v), "additional_disks"@))
}

/// The kernel path a loadable document declares.
pub open spec fn kernel_model(v: ConfigValue) -> Seq<char> {
    match lookup(boot_entries(v), "kernel"@) {
        Option::Some(k) => text_of(k),
        Option::None => Seq::empty(),
    }
}

/// The initrd path a loadable document declares.
pub open spec fn initrd_model(v: ConfigValue) -> Seq<char> {
    match lookup(boot_entries(v), "initrd"@) {
        Option::Some(ir) => text_of(ir),
        Option::None => Seq::empty(),
    }
}

/// The command line a loadable document yields: the declared one, or the
/// default when the field is absent.
pub open spec fn command_line_model(v: ConfigValue) -> Seq<char> {
    match lookup(boot_entries(v), "command_line"@) {
        Option::Some(ConfigValue::Text(s)) => s@,
        _ => default_command_line(),
    }
}

/// The value of an optional unsigned field, or the given default.
pub open spec fn uint_or(o: Option<ConfigValue>, d: u64) -> u64 {
    match o {
        Option::Some(ConfigValue::UInt(n)) => n,
        _ => d,
    }
}

/// The CPU count a loadable document yields.
pub open spec fn cpu_count_model(v: ConfigValue) -> u64 {
    uint_or(lookup(top_entries(v), "cpu_count"@), DEFAULT_CPU_COUNT)
}

/// The memory size a loadable document yields.
pub open spec fn memory_size_model(v: ConfigValue) -> u64 {
    uint_or(lookup(top_entries(v), "memory_size"@), DEFAULT_MEMORY_SIZE)
}

/// The effective disk list a loadable document yields: the `boot.disks`
/// paths followed by the `additional_disks` paths, in declared order.
pub open spec fn disks_model(v: ConfigValue) -> Seq<Seq<char>> {
    opt_path_views(lookup(boot_entries(v), "disks"@))
        + opt_path_views(lookup(top_entries(v), "additional_disks"@))
}

/// The named field is present somewhere in the document with an unknown
/// key for its level.
pub open spec fn unknown_field_somewhere(v: ConfigValue, k: Seq<char>) -> bool {
    ||| (exists|i: int|
        0 <= i < top_entries(v).len() && #[trigger] key_at(top_entries(v), i) == k)
        && !known_top_key(k)
    ||| (exists|i: int|
        0 <= i < boot_entries(v).len() && #[trigger] key_at(boot_entries(v), i) == k)
        && !known_boot_key(k)
}

/// The named field occurs twice in one record of the document.
pub open spec fn duplicate_field_somewhere(v: ConfigValue, k: Seq<char>) -> bool {
    ||| exists|i: int, j: int|
        0 <= i < j < top_entries(v).len()
            && #[trigger] key_at(top_entries(v), i) == k
            && #[trigger] key_at(top_entries(v), j) == k
    ||| exists|i: int, j: int|
        0 <= i < j < boot_entries(v).len()
            && #[trigger] key_at(boot_entries(v), i) == k
            && #[trigger] key_at(boot_entries(v), j) == k
}

/// The named field is present but wrongly typed: the exact condition under
/// which loading fails with `FieldType` for that name.
pub open spec fn field_type_violation(v: ConfigValue, name: Seq<char>) -> bool {
    ||| name == "kernel"@ && (lookup(boot_entries(v), "kernel"@) matches Option::Some(x)
        && !(x is Text))
    ||| name == "initrd"@ && (lookup(boot_entries(v), "initrd"@) matches Option::Some(x)
        && !(x is Text))
    ||| name == "command_line"@ && (lookup(boot_entries(v), "command_line"@)
        matches Option::Some(x) && !(x is Text))
    ||| name == "disks"@ && (lookup(boot_entries(v), "disks"@) matches Option::Some(x)
        && !text_list_shape(x))
    ||| name == "cpu_count"@ && (lookup(top_entries(v), "cpu_count"@) matches Option::Some(x)
        && !(x is UInt))
    ||| name == "memory_size"@ && (lookup(top_entries(v), "memory_size"@)
        matches Option::Some(x) && !(x is UInt))
    ||| name == "additional_disks"@ && (lookup(top_entries(v), "additional_disks"@)
        matches Option::Some(x) && !text_list_shape(x))
}

/// How a successfully loaded spec relates to the document it came from:
/// each field holds the declared value, with the defaults applied to the
/// absent optional fields, and the effective disk list is `boot.disks`
/// followed by `additional_disks`, in declared order.
pub open spec fn loaded_spec_matches(v: ConfigValue, s: VmSpec) -> bool {
    &&& s.kernel@ == kernel_model(v)
    &&& s.initrd@ == initrd_model(v)
    &&& s.command_line@ == command_line_model(v)
    &&& s.cpu_count == cpu_count_model(v)
    &&& s.memory_size == memory_size_model(v)
    &&& string_views(s.disks@) == disks_model(v)
}

/// The top-level record passed the schema's key rules.
pub open spec fn top_keys_ok(v: ConfigValue) -> bool {
    keys_known(false, top_entries(v)) && distinct_keys(top_entries(v))
}

/// The `boot` section passed the schema's key rules.
pub open spec fn boot_keys_ok(v: ConfigValue) -> bool {
    keys_known(true, boot_entries(v)) && distinct_keys(boot_entries(v))
}

/// The exact condition under which loading fails with each error. An error
/// of a later checking stage also says that the earlier stages passed: key
/// rules are checked before the `boot` section's presence and shape, and
/// those before each field's presence and type.
pub open spec fn load_error_condition(v: ConfigValue, e: ConfigError) -> bool {
    match e {
        ConfigError::NotARecord => !(v is Record),
        ConfigError::UnknownField(k) => unknown_field_somewhere(v, k@),
        ConfigError::DuplicateField(k) => duplicate_field_somewhere(v, k@),
        ConfigError::MissingBoot => v is Record && top_keys_ok(v) && lookup(
            top_entries(v),
            "boot"@,
        ) is None,
        ConfigError::BootNotARecord => top_keys_ok(v) && (lookup(top_entries(v), "boot"@)
            matches Option::Some(b) && !(b is Record)),
        ConfigError::MissingKernel => top_keys_ok(v) && boot_keys_ok(v) && has_boot_record(v)
            && lookup(boot_entries(v), "kernel"@) is None,
        ConfigError::MissingInitrd => top_keys_ok(v) && boot_keys_ok(v) && has_boot_record(v)
            && lookup(boot_entries(v), "initrd"@) is None,
        ConfigError::FieldType(name) => top_keys_ok(v) && boot_keys_ok(v)
            && field_type_violation(v, name@),
    }
}

/// Whether a key is known at the given level, at run time.
fn is_known_key(boot_level: bool, k: &String) -> (r: bool)
    ensures
        r == level_key_known(boot_level, k@),
{
    if boot_level {
        *k == "kernel".to_owned() || *k == "initrd".to_owned()
            || *k == "command_line".to_owned() || *k == "disks".to_owned()
    } else {
        *k == "boot".to_owned() || *k == "cpu_count".to_owned()
            || *k == "additional_disks".to_owned() || *k == "memory_size".to_owned()
    }
}

/// Checks one record against the schema's key rules at the given level:
/// accepts exactly the records whose keys are all known and unrepeated, and
/// otherwise names the offending field.
fn check_keys(boot_level: bool, es: &Vec<(String, ConfigValue)>) -> (r: Option<ConfigError>)
    ensures
        r is None <==> (keys_known(boot_level, es@) && distinct_keys(es@)),
        r matches Some(e) ==> match e {
            ConfigError::UnknownField(k) => (exists|i: int|
                0 <= i < es@.len() && #[trigger] key_at(es@, i) == k@)
                && !level_key_known(boot_level, k@),
            ConfigError::DuplicateField(k) => exists|i: int, j: int|
                0 <= i < j < es@.len()
                    && #[trigger] key_at(es@, i) == k@
                    && #[trigger] key_at(es@, j) == k@,
            _ => false,
        },
{
    let n = es.len();
    let mut i: usize = 0;
    while i < n
        invariant
            n == es@.len(),
            i <= n,
            forall|ii: int| 0 <= ii < i ==> level_key_known(boot_level, #[trigger] key_at(es@, ii)),
            forall|ii: int, jj: int|
                0 <= ii < jj < i ==> #[trigger] key_at(es@, ii) != #[trigger] key_at(es@, jj),
        decreases n - i,
    {
        if !is_known_key(boot_level, &es[i].0) {
            let k = es[i].0.clone();
            proof {
                assert(key_at(es@, i as int) == k@);
                assert(!level_key_known(boot_level, key_at(es@, i as int)));
            }
            return Option::Some(ConfigError::UnknownField(k));
        }
        let mut j: usize = 0;
        while j < i
            invariant
                n == es@.len(),
                j <= i,
                i < n,
                forall|jj: int| 0 <= jj < j ==> #[trigger] key_at(es@, jj) != key_at(es@, i as int),
            decreases i - j,
        {
            if es[j].0 == es[i].0 {
                let k = es[i].0.clone();
                proof {
                    assert(key_at(es@, j as int) == k@);
                    assert(key_at(es@, i as int) == k@);
                }
                return Option::Some(ConfigError::DuplicateField(k));
            }
            j += 1;
        }
        i += 1;
    }
    Option::None
}

/// First-match lookup of `key` among a record's entries, at run time.
fn lookup_value<'a>(es: &'a Vec<(String, ConfigValue)>, key: &String) -> (r: Option<
    &'a ConfigValue,
>)
    ensures
        match r {
            Option::Some(val) => lookup(es@, key@) == Option::Some(*val),
            Option::None => lookup(es@, key@) is None,
        },
{
    let n = es.len();
    let mut i: usize = 0;
    proof {
        assert(es@.skip(0) =~= es@);
    }
    while i < n
        invariant
            n == es@.len(),
            i <= n,
            lookup(es@, key@) == lookup(es@.skip(i as int), key@),
        decreases n - i,
    {
        proof {
            assert(es@.skip(i as int)[0] == es@[i as int]);
            assert(es@.skip(i as int).drop_first() =~= es@.skip(i as int + 1));
        }
        if es[i].0 == *key {
            return Option::Some(&es[i].1);
        }
        i += 1;
    }
    proof {
        assert(es@.skip(n as int).len() == 0);
    }
    Option::None
}

/// The unsigned integer a value holds, if it is one.
fn as_uint(v: &ConfigValue) -> (r: Option<u64>)
    ensures
        match r {
            Option::Some(n) => *v == ConfigValue::UInt(n),
            Option::None => !(*v is UInt),
        },
{
    match v {
        ConfigValue::UInt(n) => Option::Some(*n),
        _ => Option::None,
    }
}

/// The text a value holds, if it is text.
fn as_text(v: &ConfigValue) -> (r: Option<String>)
    ensures
        match r {
            Option::Some(s) => *v is Text && s@ == text_of(*v),
            Option::None => !(*v is Text),
        },
{
    match v {
        ConfigValue::Text(s) => Option::Some(s.clone()),
        _ => Option::None,
    }
}

/// The strings a value holds, if it is a list of text.
fn as_text_list(v: &ConfigValue) -> (r: Option<Vec<String>>)
    ensures
        match r {
            Option::Some(l) => text_list_shape(*v) && (*v matches ConfigValue::List(items)
                ==> string_views(l@) == text_views(items@)),
            Option::None => !text_list_shape(*v),
        },
{
    let items = match v {
        ConfigValue::List(items) => items,
        _ => {
            return Option::None;
        },
    };
    proof {
        assert(*v == ConfigValue::List(*items));
    }
    let n = items.len();
    let mut out: Vec<String> = Vec::new();
    let mut i: usize = 0;
    while i < n
        invariant
            *v == ConfigValue::List(*items),
            n == items@.len(),
            i <= n,
            out@.len() == i,
            forall|k: int| 0 <= k < i ==> #[trigger] items@[k] is Text,
            forall|k: int| 0 <= k < i ==> #[trigger] out@[k]@ == text_of(items@[k]),
        decreases n - i,
    {
        match &items[i] {
            ConfigValue::Text(s) => {
                out.push(s.clone());
            },
            _ => {
                proof {
                    assert(!(items@[i as int] is Text));
                    assert(*v == ConfigValue::List(*items));
                    assert(!all_text(items@));
                }
                return Option::None;
            },
        }
        i += 1;
    }
    proof {
        assert(string_views(out@) =~= text_views(items@));
    }
    Option::Some(out)
}

/// Loads a decoded configuration document into a `VmSpec`.
///
/// Accepts exactly the documents `config_ok` describes: a record of known,
/// unrepeated fields with a well-formed `boot` section. On success the
/// spec's fields are the document's declared values, with the defaults
/// applied to absent optional fields and the effective disk list being
/// `boot.disks` followed by `additional_disks`. On failure the error names
/// the first violation found: unknown or duplicated fields first at each
/// level, then the section's presence and shape, then each field's
/// presence and type. No device is ever built from a rejected document.
pub fn load_config(v: &ConfigValue) -> (r: Result<VmSpec, ConfigError>)
    ensures
        r is Ok <==> config_ok(*v),
        r matches Ok(s) ==> loaded_spec_matches(*v, s),
        r matches Err(e) ==> load_error_condition(*v, e),
{
    let es = match v {
        ConfigValue::Record(es) => es,
        _ => {
            return Result::Err(ConfigError::NotARecord);
        },
    };
    if let Option::Some(e) = check_keys(false, es) {
        return Result::Err(e);
    }
    let boot_val = match lookup_value(es, &"boot".to_owned()) {
        Option::Some(b) => b,
        Option::None => {
            return Result::Err(ConfigError::MissingBoot);
        },
    };
    let bs = match boot_val {
        ConfigValue::Record(bs) => bs,
        _ => {
            return Result::Err(ConfigError::BootNotARecord);
        },
    };
    if let Option::Some(e) = check_keys(true, bs) {
        return Result::Err(e);
    }
    let kernel = match lookup_value(bs, &"kernel".to_owned()) {
        Option::Some(kv) => match as_text(kv) {
            Option::Some(s) => s,
            Option::None => {
                return Result::Err(ConfigError::FieldType("kernel".to_owned()));
            },
        },
        Option::None => {
            return Result::Err(ConfigError::MissingKernel);
        },
    };
    let initrd = match lookup_value(bs, &"initrd".to_owned()) {
        Option::Some(iv) => match as_text(iv) {
            Option::Some(s) => s,
            Option::None => {
                return Result::Err(ConfigError::FieldType("initrd".to_owned()));
            },
        },
        Option::None => {
            return Result::Err(ConfigError::MissingInitrd);
        },
    };
    let command_line = match lookup_value(bs, &"command_line".to_owned()) {
        Option::Some(cv) => match as_text(cv) {
            Option::Some(s) => s,
            Option::None => {
                return Result::Err(ConfigError::FieldType("command_line".to_owned()));
            },
        },
        Option::None => "console=hvc0".to_owned(),
    };
    let mut disks = match lookup_value(bs, &"disks".to_owned()) {
        Option::Some(dv) => match as_text_list(dv) {
            Option::Some(l) => l,
            Option::None => {
                return Result::Err(ConfigError::FieldType("disks".to_owned()));
            },
        },
        Option::None => {
            let d: Vec<String> = Vec::new();
            proof {
                assert(string_views(d@) =~= Seq::<Seq<char>>::empty());
            }
            d
        },
    };
    let cpu_count = match lookup_value(es, &"cpu_count".to_owned()) {
        Option::Some(cv) => match as_uint(cv) {
            Option::Some(n) => n,
            Option::None => {
                return Result::Err(ConfigError::FieldType("cpu_count".to_owned()));
            },
        },
        Option::None => DEFAULT_CPU_COUNT,
    };
    let memory_size = match lookup_value(es, &"memory_size".to_owned()) {
        Option::Some(mv) => match as_uint(mv) {
            Option::Some(n) => n,
            Option::None => {
                return Result::Err(ConfigError::FieldType("memory_size".to_owned()));
            },
        },
        Option::None => DEFAULT_MEMORY_SIZE,
    };
    let mut additional = match lookup_value(es, &"additional_disks".to_owned()) {
        Option::Some(av) => match as_text_list(av) {
            Option::Some(l) => l,
            Option::None => {
                return Result::Err(ConfigError::FieldType("additional_disks".to_owned()));
            },
        },
        Option::None => {
            let d: Vec<String> = Vec::new();
            proof {
                assert(string_views(d@) =~= Seq::<Seq<char>>::empty());
            }
            d
        },
    };
    proof {
        assert(string_views(disks@ + additional@) =~= string_views(disks@) + string_views(
            additional@,
        ));
    }
    disks.append(&mut additional);
    Result::Ok(
        VmSpec { kernel, initrd, command_line, cpu_count, memory_size, disks },
    )
}

/// A document whose `boot` section lacks `kernel` or `initrd` is never
/// loadable: together with `load_config` returning `Ok` exactly on loadable
/// documents, loading such a file fails deterministically, and no device is
/// ever built from it.
pub proof fn lemma_missing_required_field_rejected(v: ConfigValue)
    requires
        lookup(boot_entries(v), "kernel"@) is None || lookup(boot_entries(v), "initrd"@)
            is None,
    ensures
        !config_ok(v),
{
}

/// A document with an unrecognized top-level field is never loadable: the
/// schema is strict.
pub proof fn lemma_unknown_top_field_rejected(v: ConfigValue, i: int)
    requires
        0 <= i < top_entries(v).len(),
        !known_top_key(key_at(top_entries(v), i)),
    ensures
        !config_ok(v),
{
}

/// A document whose `boot` section has an unrecognized field is never
/// loadable either.
pub proof fn lemma_unknown_boot_field_rejected(v: ConfigValue, i: int)
    requires
        0 <= i < boot_entries(v).len(),
        !known_boot_key(key_at(boot_entries(v), i)),
    ensures
        !config_ok(v),
{
}

/// The two equivalent configuration front-ends: a structured file, decoded
/// to a document, or the command-line flags. Both resolve into the same
/// `VmSpec` shape before device assembly.
pub enum ConfigSource {
    File(ConfigValue),
    Flags(FlagOpts),
}

/// Resolves either configuration source into one canonical `VmSpec`. A
/// file-backed source is loaded under the strict schema and can fail; a
/// flag-backed source always resolves, with the defaults applied.
pub fn resolve_source(src: ConfigSource) -> (r: Result<VmSpec, ConfigError>)
    ensures
        match src {
            ConfigSource::File(v) => {
                &&& r is Ok <==> config_ok(v)
                &&& (r matches Ok(s) ==> loaded_spec_matches(v, s))
                &&& (r matches Err(e) ==> load_error_condition(v, e))
            },
            ConfigSource::Flags(opts) => r matches Ok(s) && flags_spec_matches(opts, s),
        },
{
    match src {
        ConfigSource::File(v) => load_config(&v),
        ConfigSource::Flags(opts) => Result::Ok(resolve_flags(opts)),
    }
}

} // verus!
