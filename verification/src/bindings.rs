//! The binding generator: how the tool that turns the stack's header into
//! foreign declarations is configured, and which declarations are kept.

use crate::builder::{build_variables_of, variable_value};
use crate::decimal::{decimal, render_decimal};
use crate::target::{BuildTarget, TargetModel};
use crate::text::{is_name_text, joined, name_char, name_text, starts_with, texts};
use vstd::prelude::*;
use vstd::string::StrSliceExecFns;
use vstd::string::StringExecFns;

verus! {

/// The families of declarations that are kept out of the bindings. A family
/// is named by the prefix that the names of all its declarations share. The
/// prefix holds nothing but characters of C names, so that the pattern made
/// of it reads it as it stands.
#[derive(Debug, PartialEq, Eq)]
pub struct SymbolFilter {
    families: Vec<String>,
}

impl View for SymbolFilter {
    type V = Seq<Seq<char>>;

    closed spec fn view(&self) -> Seq<Seq<char>> {
        texts(self.families@)
    }
}

/// Whether each of the families is named by a prefix that holds nothing but
/// characters of C names.
pub open spec fn valid_families(families: Seq<Seq<char>>) -> bool {
    forall|i: int| 0 <= i < families.len() ==> name_text(#[trigger] families[i])
}

/// Whether a declaration named `name` belongs to one of the families: the
/// name begins with the family's prefix.
pub open spec fn excluded(families: Seq<Seq<char>>, name: Seq<char>) -> bool {
    exists|i: int| 0 <= i < families.len() && (#[trigger] families[i]).is_prefix_of(name)
}

/// The test that a kept declaration passes: it belongs to no family.
pub open spec fn kept(families: Seq<Seq<char>>) -> spec_fn(Seq<char>) -> bool {
    |name: Seq<char>| !excluded(families, name)
}

/// The declarations that remain of `names`, in their order.
pub open spec fn curated(families: Seq<Seq<char>>, names: Seq<Seq<char>>) -> Seq<Seq<char>> {
    names.filter(kept(families))
}

/// The pattern that stands for a family: its prefix, then anything.
pub open spec fn family_pattern(family: Seq<char>) -> Seq<char> {
    family + ".*"@
}

/// The patterns that stand for the families, one for each, in their order.
pub open spec fn patterns_of(families: Seq<Seq<char>>) -> Seq<Seq<char>> {
    families.map_values(|f: Seq<char>| family_pattern(f))
}

impl SymbolFilter {
    #[verifier::type_invariant]
    spec fn well_formed(self) -> bool {
        valid_families(texts(self.families@))
    }

    /// Makes a filter of the given families. A family whose prefix holds
    /// anything but characters of C names is refused, and the whole list
    /// with it: a pattern would read such a prefix otherwise than it stands.
    pub fn new(families: Vec<String>) -> (r: Option<SymbolFilter>)
        ensures
            r is Some <==> valid_families(texts(families@)),
            r matches Some(filter) ==> filter@ == texts(families@),
    {
        let mut i: usize = 0;
        while i < families.len()
            invariant
                i <= families.len(),
                forall|k: int| 0 <= k < i ==> name_text(#[trigger] texts(families@)[k]),
            decreases families.len() - i,
        {
            if !is_name_text(families[i].as_str()) {
                assert(!name_text(texts(families@)[i as int]));
                return None;
            }
            i += 1;
        }
        Some(SymbolFilter { families })
    }

    /// The filter of this firmware: the command set of the mass-storage
    /// class, which shares the header and is of no use to this device.
    pub fn unused_device_classes() -> (filter: SymbolFilter)
        ensures
            filter@ == seq!["SCSI"@],
    {
        let mut families: Vec<String> = Vec::new();
        families.push(String::from_str("SCSI"));
        proof {
            reveal_strlit("SCSI");
            assert(texts(families@) =~= seq!["SCSI"@]);
            assert(name_text("SCSI"@));
        }
        SymbolFilter { families }
    }

    /// Gives the prefixes of the families.
    pub fn families(&self) -> (list: &Vec<String>)
        ensures
            texts(list@) == self@,
            valid_families(self@),
    {
        proof {
            use_type_invariant(self);
        }
        &self.families
    }

    /// Decides whether a declaration named `name` is kept out.
    pub fn excludes(&self, name: &str) -> (r: bool)
        ensures
            r == excluded(self@, name@),
    {
        let mut i: usize = 0;
        while i < self.families.len()
            invariant
                i <= self.families.len(),
                forall|k: int| 0 <= k < i ==> !(#[trigger] self@[k]).is_prefix_of(name@),
            decreases self.families.len() - i,
        {
            if starts_with(name, self.families[i].as_str()) {
                assert(self@[i as int].is_prefix_of(name@));
                return true;
            }
            i += 1;
        }
        false
    }

    /// Gives the patterns to hand to the generator, one for each family:
    /// the family's prefix, which holds nothing that a pattern reads
    /// otherwise than it stands, and then anything.
    pub fn patterns(&self) -> (list: Vec<String>)
        ensures
            texts(list@) == patterns_of(self@),
            valid_families(self@),
    {
        proof {
            use_type_invariant(self);
        }
        let mut list: Vec<String> = Vec::new();
        let mut i: usize = 0;
        while i < self.families.len()
            invariant
                i <= self.families.len(),
                list.len() == i,
                forall|k: int| 0 <= k < i ==> (#[trigger] list[k])@ == family_pattern(self@[k]),
            decreases self.families.len() - i,
        {
            list.push(joined(self.families[i].as_str(), ".*"));
            i += 1;
        }
        assert(texts(list@) =~= patterns_of(self@));
        list
    }

    /// Keeps of `names` the declarations that belong to no family, in their
    /// order.
    pub fn curate(&self, names: &Vec<String>) -> (out: Vec<String>)
        ensures
            texts(out@) == curated(self@, texts(names@)),
            forall|i: int| 0 <= i < out.len() ==> !excluded(self@, #[trigger] texts(out@)[i]),
    {
        let ghost all = texts(names@);
        let mut out: Vec<String> = Vec::new();
        let mut i: usize = 0;
        proof {
            reveal(Seq::filter);
            assert(all.take(0) =~= Seq::<Seq<char>>::empty());
            assert(texts(out@) =~= curated(self@, all.take(0)));
        }
        while i < names.len()
            invariant
                i <= names.len(),
                all == texts(names@),
                texts(out@) == curated(self@, all.take(i as int)),
            decreases names.len() - i,
        {
            let ghost before = texts(out@);
            let keep: bool = !self.excludes(names[i].as_str());
            if keep {
                out.push(names[i].clone());
            }
            proof {
                reveal(Seq::filter);
                let next = all.take(i + 1);
                assert(next.drop_last() =~= all.take(i as int));
                assert(next.last() == names[i as int]@);
                if keep {
                    assert(texts(out@) =~= before.push(names[i as int]@));
                } else {
                    assert(texts(out@) =~= before);
                }
            }
            i += 1;
        }
        proof {
            assert(all.take(names.len() as int) =~= all);
            lemma_curated_holds_no_excluded(self@, all);
        }
        out
    }
}

/// No declaration of an excluded family is among the curated ones, and the
/// curated ones are all taken from the given names.
pub proof fn lemma_curated_holds_no_excluded(families: Seq<Seq<char>>, names: Seq<Seq<char>>)
    ensures
        forall|i: int|
            0 <= i < curated(families, names).len() ==> !excluded(
                families,
                #[trigger] curated(families, names)[i],
            ),
        forall|i: int|
            0 <= i < curated(families, names).len() ==> names.contains(
                #[trigger] curated(families, names)[i],
            ),
    decreases names.len(),
{
    reveal(Seq::filter);
    if names.len() > 0 {
        let rest = names.drop_last();
        lemma_curated_holds_no_excluded(families, rest);
        let sub = curated(families, rest);
        let all = curated(families, names);
        assert forall|i: int| 0 <= i < all.len() implies !excluded(families, #[trigger] all[i])
            && names.contains(all[i]) by {
            if i < sub.len() {
                assert(all[i] == sub[i]);
                let j = choose|j: int| 0 <= j < rest.len() && rest[j] == sub[i];
                assert(names[j] == all[i]);
            } else {
                assert(all[i] == names.last());
                assert(names[names.len() - 1] == all[i]);
            }
        }
    }
}

/// The pattern of a family whose prefix holds nothing but characters of C
/// names is that prefix as written, then one dot and one star: no sign that
/// a pattern reads otherwise than it stands comes before the last two.
pub proof fn lemma_pattern_keeps_prefix_as_written(family: Seq<char>)
    requires
        name_text(family),
    ensures
        family_pattern(family).len() == family.len() + 2,
        family.is_prefix_of(family_pattern(family)),
        forall|i: int| 0 <= i < family.len() ==> name_char(#[trigger] family_pattern(family)[i]),
        family_pattern(family)[family.len() as int] == '.',
        family_pattern(family)[(family.len() + 1) as int] == '*',
{
    reveal_strlit(".*");
    let p = family_pattern(family);
    assert(p.subrange(0, family.len() as int) =~= family);
    assert forall|i: int| 0 <= i < family.len() implies name_char(#[trigger] p[i]) by {
        assert(p[i] == family[i]);
    }
}

/// Every given declaration that belongs to no family is among the curated
/// ones.
pub proof fn lemma_curated_keeps_the_rest(
    families: Seq<Seq<char>>,
    names: Seq<Seq<char>>,
    i: int,
)
    requires
        0 <= i < names.len(),
        !excluded(families, names[i]),
    ensures
        curated(families, names).contains(names[i]),
{
    names.lemma_filter_contains(kept(families), i);
}

/// The arguments that the generator hands to the C front end: where the
/// toolchain's headers and the stack lie, that no hosted runtime may be
/// assumed, the chip's identity macro, the two clock macros, and the foreign
/// target, which is never the machine that builds.
pub open spec fn clang_arguments_of(t: TargetModel) -> Seq<Seq<char>> {
    seq![
        "-I/usr/lib/avr/include"@,
        "-I/usr/lib/gcc/avr/5.4.0/include"@,
        "-I/usr/lib/gcc/avr/5.4.0/include-fixed"@,
        "-I../lufa/"@,
        "-ffreestanding"@,
        "-D"@ + t.chip_macro,
        "-DF_CPU="@ + decimal(t.cpu_freq),
        "-DF_USB="@ + decimal(t.usb_freq),
        "--target=avr"@,
    ]
}

/// The start of an argument that defines the macro `name` with a value.
pub open spec fn definition_prefix(name: Seq<char>) -> Seq<char> {
    "-D"@ + name + "="@
}

/// The value that a list of arguments gives to the macro `name`: that of
/// the last argument that defines it, as a later definition replaces an
/// earlier one.
pub open spec fn definition_value(arguments: Seq<Seq<char>>, name: Seq<char>) -> Option<
    Seq<char>,
>
    decreases arguments.len(),
{
    if arguments.len() == 0 {
        None
    } else if definition_prefix(name).is_prefix_of(arguments.last()) {
        Some(arguments.last().skip(definition_prefix(name).len() as int))
    } else {
        definition_value(arguments.drop_last(), name)
    }
}

/// Looks up the value that a list of arguments gives to the macro `name`:
/// that of the last argument that defines it, or nothing where none does.
pub fn lookup_definition(arguments: &Vec<String>, name: &str) -> (r: Option<String>)
    ensures
        match r {
            Some(value) => definition_value(texts(arguments@), name@) == Some(value@),
            None => definition_value(texts(arguments@), name@) is None,
        },
{
    let ghost all = texts(arguments@);
    let prefix: String = joined("-D", name).concat("=");
    let prefix_len: usize = prefix.as_str().unicode_len();
    let mut i: usize = arguments.len();
    proof {
        assert(all.take(i as int) =~= all);
    }
    while i > 0
        invariant
            i <= arguments.len(),
            all == texts(arguments@),
            prefix@ == definition_prefix(name@),
            prefix_len == prefix@.len(),
            definition_value(all, name@) == definition_value(all.take(i as int), name@),
        decreases i,
    {
        proof {
            assert(all.take(i as int).drop_last() =~= all.take(i - 1));
            assert(all.take(i as int).last() == arguments[i - 1]@);
        }
        i -= 1;
        let argument: &str = arguments[i].as_str();
        if starts_with(argument, prefix.as_str()) {
            let end: usize = argument.unicode_len();
            let value: &str = argument.substring_char(prefix_len, end);
            assert(value@ =~= argument@.skip(prefix_len as int));
            return Some(String::from_str(value));
        }
    }
    None
}

/// Computes the arguments for the C front end.
pub fn clang_arguments(target: &BuildTarget) -> (list: Vec<String>)
    ensures
        texts(list@) == clang_arguments_of(target@),
{
    let cpu: String = render_decimal(target.cpu_freq());
    let usb: String = render_decimal(target.usb_freq());
    let mut list: Vec<String> = Vec::new();
    list.push(String::from_str("-I/usr/lib/avr/include"));
    list.push(String::from_str("-I/usr/lib/gcc/avr/5.4.0/include"));
    list.push(String::from_str("-I/usr/lib/gcc/avr/5.4.0/include-fixed"));
    list.push(String::from_str("-I../lufa/"));
    list.push(String::from_str("-ffreestanding"));
    list.push(joined("-D", target.chip_macro()));
    list.push(joined("-DF_CPU=", cpu.as_str()));
    list.push(joined("-DF_USB=", usb.as_str()));
    list.push(String::from_str("--target=avr"));
    assert(texts(list@) =~= clang_arguments_of(target@));
    list
}

/// The header of the stack that is turned into declarations.
pub const HEADER: &'static str = "cdcglue/cdcglue.h";

/// The module in which the declarations look up the primitive C types.
pub const CTYPES_PREFIX: &'static str = "crate::rust_ctypes";

/// The file, in the build's output directory, that holds the declarations.
pub const BINDINGS_FILE: &'static str = "bindings.rs";

/// The configuration of one run of the generator.
#[derive(Clone, Debug, PartialEq, Eq)]
pub struct GeneratorConfig {
    /// Whether the declarations rest on the core library alone.
    pub use_core: bool,
    /// The module in which the primitive C types are looked up.
    pub ctypes_prefix: String,
    /// The header to read.
    pub header: String,
    /// The arguments for the C front end.
    pub clang_arguments: Vec<String>,
    /// The patterns of the declarations to leave out.
    pub excluded_patterns: Vec<String>,
    /// Whether the generator is asked to format what it writes.
    pub format_output: bool,
}

/// The mathematical content of a `GeneratorConfig`.
pub ghost struct GeneratorModel {
    pub use_core: bool,
    pub ctypes_prefix: Seq<char>,
    pub header: Seq<char>,
    pub clang_arguments: Seq<Seq<char>>,
    pub excluded_patterns: Seq<Seq<char>>,
    pub format_output: bool,
}

impl View for GeneratorConfig {
    type V = GeneratorModel;

    open spec fn view(&self) -> GeneratorModel {
        GeneratorModel {
            use_core: self.use_core,
            ctypes_prefix: self.ctypes_prefix@,
            header: self.header@,
            clang_arguments: texts(self.clang_arguments@),
            excluded_patterns: texts(self.excluded_patterns@),
            format_output: self.format_output,
        }
    }
}

/// The configuration for a target and a set of excluded families: no
/// standard library, the primitive types from the architecture's own
/// module, the stack's public header, the front end's arguments for the
/// target, and one pattern for each family.
pub open spec fn generator_config_of(t: TargetModel, families: Seq<Seq<char>>) -> GeneratorModel {
    GeneratorModel {
        use_core: true,
        ctypes_prefix: CTYPES_PREFIX@,
        header: HEADER@,
        clang_arguments: clang_arguments_of(t),
        excluded_patterns: patterns_of(families),
        format_output: true,
    }
}

/// Computes the configuration of the generator for a target.
pub fn generator_config(target: &BuildTarget, filter: &SymbolFilter) -> (config: GeneratorConfig)
    ensures
        config@ == generator_config_of(target@, filter@),
{
    GeneratorConfig {
        use_core: true,
        ctypes_prefix: String::from_str(CTYPES_PREFIX),
        header: String::from_str(HEADER),
        clang_arguments: clang_arguments(target),
        excluded_patterns: filter.patterns(),
        format_output: true,
    }
}

/// The command that brings the written declarations at `path` into
/// canonical style: the formatter, run on its own after the generator.
pub open spec fn format_command_of(path: Seq<char>) -> Seq<Seq<char>> {
    seq!["rustup"@, "run"@, "nightly"@, "rustfmt"@, path]
}

/// Computes the command that formats the written declarations: the program
/// first, then its arguments.
pub fn format_command(path: &str) -> (words: Vec<String>)
    ensures
        texts(words@) == format_command_of(path@),
{
    let mut words: Vec<String> = Vec::new();
    words.push(String::from_str("rustup"));
    words.push(String::from_str("run"));
    words.push(String::from_str("nightly"));
    words.push(String::from_str("rustfmt"));
    words.push(String::from_str(path));
    assert(texts(words@) =~= format_command_of(path@));
    words
}

/// The external build and the generator are given the same clocks: for
/// every target, the value of each clock variable of the build is the value
/// of the macro of the same name that the front end is given, and both are
/// the target's frequency in decimal notation.
pub proof fn lemma_clocks_agree_across_consumers(t: TargetModel)
    ensures
        variable_value(build_variables_of(t), "F_CPU"@) == Some(decimal(t.cpu_freq)),
        definition_value(clang_arguments_of(t), "F_CPU"@) == Some(decimal(t.cpu_freq)),
        variable_value(build_variables_of(t), "F_USB"@) == Some(decimal(t.usb_freq)),
        definition_value(clang_arguments_of(t), "F_USB"@) == Some(decimal(t.usb_freq)),
{
    lemma_clock_variables(t);
    lemma_clock_definitions(t);
}

proof fn lemma_clock_variables(t: TargetModel)
    ensures
        variable_value(build_variables_of(t), "F_CPU"@) == Some(decimal(t.cpu_freq)),
        variable_value(build_variables_of(t), "F_USB"@) == Some(decimal(t.usb_freq)),
{
    reveal_strlit("F_CPU");
    reveal_strlit("F_USB");
    reveal_strlit("OPTIMIZATION");
    reveal_strlit("SRC");
    reveal_strlit("LUFA_PATH");
    reveal_strlit("CC_FLAGS");
    let v = build_variables_of(t);
    let v8 = v.drop_last();
    let v7 = v8.drop_last();
    let v6 = v7.drop_last();
    let v5 = v6.drop_last();
    let v4 = v5.drop_last();
    assert(v.last() == v[8] && v8.last() == v[7] && v7.last() == v[6] && v6.last() == v[5]
        && v5.last() == v[4] && v4.last() == v[3]);
    assert("F_CPU"@[2] == 'C' && "F_USB"@[2] == 'U');
    assert(v[8].0.len() == 8 && v[7].0.len() == 9 && v[6].0.len() == 3 && v[5].0.len() == 12);
    reveal_with_fuel(variable_value, 7);
}

proof fn lemma_clock_definitions(t: TargetModel)
    ensures
        definition_value(clang_arguments_of(t), "F_CPU"@) == Some(decimal(t.cpu_freq)),
        definition_value(clang_arguments_of(t), "F_USB"@) == Some(decimal(t.usb_freq)),
{
    reveal_strlit("F_CPU");
    reveal_strlit("F_USB");
    reveal_strlit("-D");
    reveal_strlit("=");
    reveal_strlit("-DF_CPU=");
    reveal_strlit("-DF_USB=");
    reveal_strlit("--target=avr");
    let a = clang_arguments_of(t);
    let a8 = a.drop_last();
    let a7 = a8.drop_last();
    let cpu = definition_prefix("F_CPU"@);
    let usb = definition_prefix("F_USB"@);
    assert(cpu =~= "-DF_CPU="@);
    assert(usb =~= "-DF_USB="@);
    assert(a.last() == a[8] && a8.last() == a[7] && a7.last() == a[6]);
    assert(!cpu.is_prefix_of(a[8])) by {
        assert(a[8].subrange(0, 8)[1] == '-');
        assert(cpu[1] == 'D');
    }
    assert(!usb.is_prefix_of(a[8])) by {
        assert(a[8].subrange(0, 8)[1] == '-');
        assert(usb[1] == 'D');
    }
    assert(usb.is_prefix_of(a[7])) by {
        assert(a[7].subrange(0, 8) =~= usb);
    }
    assert(a[7].skip(8) =~= decimal(t.usb_freq));
    assert(!cpu.is_prefix_of(a[7])) by {
        assert(a[7].subrange(0, 8)[4] == 'U');
        assert(cpu[4] == 'C');
    }
    assert(cpu.is_prefix_of(a[6])) by {
        assert(a[6].subrange(0, 8) =~= cpu);
    }
    assert(a[6].skip(8) =~= decimal(t.cpu_freq));
    reveal_with_fuel(definition_value, 4);
}

} // verus!
