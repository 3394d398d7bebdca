//! The `x-systemd` extension: systemd directives grouped by INI section.

use vstd::prelude::*;
use crate::quadlet::{File, Install, InstallView, Unit, UnitView, clone_strings};
use crate::text::{append_missing, push_missing, str_eq, texts};

verus! {

/// A systemd directive value: either a scalar string or a sequence of strings.
pub enum SystemdDirectiveValue {
    Single(String),
    List(Vec<String>),
}

impl View for SystemdDirectiveValue {
    type V = Seq<Seq<char>>;

    /// The list of values the directive holds.
    open spec fn view(&self) -> Seq<Seq<char>> {
        match self {
            SystemdDirectiveValue::Single(s) => seq![s@],
            SystemdDirectiveValue::List(v) => texts(v@),
        }
    }
}

impl SystemdDirectiveValue {
    /// Convert into a list of string values.
    pub fn into_values(self) -> (r: Vec<String>)
        ensures
            texts(r@) == self@,
    {
        match self {
            SystemdDirectiveValue::Single(s) => {
                let mut v = Vec::new();
                v.push(s);
                assert(texts(v@) =~= seq![v@[0]@]);
                v
            },
            SystemdDirectiveValue::List(v) => v,
        }
    }

    /// The list of values the directive holds, leaving it in place.
    pub fn values(&self) -> (r: Vec<String>)
        ensures
            texts(r@) == self@,
    {
        match self {
            SystemdDirectiveValue::Single(s) => {
                let mut v = Vec::new();
                v.push(s.clone());
                assert(texts(v@) =~= seq![v@[0]@]);
                v
            },
            SystemdDirectiveValue::List(v) => clone_strings(v),
        }
    }
}

/// One directive of an INI section: its name and value.
pub struct Directive {
    pub name: String,
    pub value: SystemdDirectiveValue,
}

/// View of a [`Directive`].
pub struct DirectiveView {
    pub name: Seq<char>,
    pub values: Seq<Seq<char>>,
}

impl View for Directive {
    type V = DirectiveView;

    open spec fn view(&self) -> DirectiveView {
        DirectiveView { name: self.name@, values: self.value@ }
    }
}

/// An INI section name and its directives, in order.
pub struct SystemdSection {
    pub name: String,
    pub directives: Vec<Directive>,
}

/// View of a [`SystemdSection`].
pub struct SectionView {
    pub name: Seq<char>,
    pub directives: Seq<DirectiveView>,
}

impl View for SystemdSection {
    type V = SectionView;

    open spec fn view(&self) -> SectionView {
        SectionView {
            name: self.name@,
            directives: self.directives@.map_values(|d: Directive| d@),
        }
    }
}

/// Map of INI section names (such as `Unit` or `Install`) to their directives, in the order of the
/// compose file.
pub struct XSystemdMap {
    pub sections: Vec<SystemdSection>,
}

impl View for XSystemdMap {
    type V = Seq<SectionView>;

    open spec fn view(&self) -> Seq<SectionView> {
        self.sections@.map_values(|s: SystemdSection| s@)
    }
}

/// The first section named `name`.
pub open spec fn find_section(s: Seq<SectionView>, name: Seq<char>) -> Option<SectionView>
    decreases s.len(),
{
    if s.len() == 0 {
        None
    } else if s[0].name == name {
        Some(s[0])
    } else {
        find_section(s.drop_first(), name)
    }
}

/// The first directive named `name`.
pub open spec fn find_directive(d: Seq<DirectiveView>, name: Seq<char>) -> Option<DirectiveView>
    decreases d.len(),
{
    if d.len() == 0 {
        None
    } else if d[0].name == name {
        Some(d[0])
    } else {
        find_directive(d.drop_first(), name)
    }
}

/// The `[Unit]` section after applying one directive: `Requires`, `After`, `Wants`, `Before`, and
/// `BindsTo` add their values; other directives are ignored.
pub open spec fn unit_directive(u: UnitView, d: DirectiveView) -> UnitView {
    if d.name == "Requires"@ {
        UnitView { requires: u.requires + d.values, ..u }
    } else if d.name == "After"@ {
        UnitView { after: u.after + d.values, ..u }
    } else if d.name == "Wants"@ {
        UnitView { wants: u.wants + d.values, ..u }
    } else if d.name == "Before"@ {
        UnitView { before: u.before + d.values, ..u }
    } else if d.name == "BindsTo"@ {
        UnitView { binds_to: u.binds_to + d.values, ..u }
    } else {
        u
    }
}

/// The `[Unit]` section after applying directives in order.
pub open spec fn unit_directives_fold(u: UnitView, d: Seq<DirectiveView>) -> UnitView
    decreases d.len(),
{
    if d.len() == 0 {
        u
    } else {
        unit_directive(unit_directives_fold(u, d.drop_last()), d.last())
    }
}

/// The `[Unit]` section after applying the `Unit` section of an `x-systemd` map.
pub open spec fn unit_directives(u: UnitView, m: Seq<SectionView>) -> UnitView {
    match find_section(m, "Unit"@) {
        Some(sec) => unit_directives_fold(u, sec.directives),
        None => u,
    }
}

/// The `[Install]` section after applying one directive: `WantedBy` and `RequiredBy` add the
/// values they do not hold yet; other directives are ignored.
pub open spec fn install_directive(i: InstallView, d: DirectiveView) -> InstallView {
    if d.name == "WantedBy"@ {
        InstallView { wanted_by: append_missing(i.wanted_by, d.values), ..i }
    } else if d.name == "RequiredBy"@ {
        InstallView { required_by: append_missing(i.required_by, d.values), ..i }
    } else {
        i
    }
}

/// The `[Install]` section after applying directives in order.
pub open spec fn install_directives_fold(i: InstallView, d: Seq<DirectiveView>) -> InstallView
    decreases d.len(),
{
    if d.len() == 0 {
        i
    } else {
        install_directive(install_directives_fold(i, d.drop_last()), d.last())
    }
}

/// The `[Install]` section after applying the `Install` section of an `x-systemd` map.
pub open spec fn install_directives(i: InstallView, m: Seq<SectionView>) -> InstallView {
    match find_section(m, "Install"@) {
        Some(sec) => install_directives_fold(i, sec.directives),
        None => i,
    }
}

/// The values of `Install.WantedBy`, or none.
pub open spec fn install_wanted_by(m: Seq<SectionView>) -> Seq<Seq<char>> {
    match find_section(m, "Install"@) {
        Some(sec) => match find_directive(sec.directives, "WantedBy"@) {
            Some(d) => d.values,
            None => seq![],
        },
        None => seq![],
    }
}

/// No two of the texts are equal.
pub open spec fn distinct_texts(s: Seq<Seq<char>>) -> bool {
    forall|i: int, j: int| 0 <= i < j < s.len() ==> s[i] != s[j]
}

/// The names of the directives of a section.
pub open spec fn directive_names(s: SectionView) -> Seq<Seq<char>> {
    s.directives.map_values(|d: DirectiveView| d.name)
}

/// A map of sections as YAML gives it: no two sections share a name, and no two directives of a
/// section share a name.
pub open spec fn systemd_map_wf(m: Seq<SectionView>) -> bool {
    &&& distinct_texts(m.map_values(|s: SectionView| s.name))
    &&& forall|i: int| 0 <= i < m.len() ==> distinct_texts(directive_names(#[trigger] m[i]))
}

impl XSystemdMap {
    /// The position of the first section named `name`, if any.
    pub fn section_index(&self, name: &str) -> (r: Option<usize>)
        ensures
            match r {
                Some(i) => i < self.sections.len() && find_section(self@, name@) == Some(
                    self@[i as int],
                ),
                None => find_section(self@, name@) is None,
            },
    {
        let mut i: usize = 0;
        assert(self@.subrange(0, self@.len() as int) =~= self@);
        while i < self.sections.len()
            invariant
                i <= self.sections.len(),
                find_section(self@, name@) == find_section(self@.subrange(i as int, self@.len() as int), name@),
            decreases self.sections.len() - i,
        {
            let ghost rest = self@.subrange(i as int, self@.len() as int);
            assert(rest[0] == self@[i as int]);
            if str_eq(self.sections[i].name.as_str(), name) {
                return Some(i);
            }
            assert(rest.drop_first() =~= self@.subrange(i + 1, self@.len() as int));
            i = i + 1;
        }
        None
    }
}

impl SystemdSection {
    /// The position of the first directive named `name`, if any.
    pub fn directive_index(&self, name: &str) -> (r: Option<usize>)
        ensures
            match r {
                Some(i) => i < self.directives.len() && find_directive(self@.directives, name@)
                    == Some(self@.directives[i as int]),
                None => find_directive(self@.directives, name@) is None,
            },
    {
        let ghost d = self@.directives;
        let mut i: usize = 0;
        assert(d.subrange(0, d.len() as int) =~= d);
        while i < self.directives.len()
            invariant
                d == self@.directives,
                i <= self.directives.len(),
                find_directive(d, name@) == find_directive(d.subrange(i as int, d.len() as int), name@),
            decreases self.directives.len() - i,
        {
            let ghost rest = d.subrange(i as int, d.len() as int);
            assert(rest[0] == d[i as int]);
            if str_eq(self.directives[i].name.as_str(), name) {
                return Some(i);
            }
            assert(rest.drop_first() =~= d.subrange(i + 1, d.len() as int));
            i = i + 1;
        }
        None
    }
}

/// Apply directives from the `Unit` section of an `x-systemd` map to a [`Unit`].
///
/// Recognised directives: `Requires`, `After`, `Wants`, `Before`, `BindsTo`; others are ignored.
pub fn apply_unit_directives(sections: &XSystemdMap, unit: &mut Unit)
    ensures
        final(unit)@ == unit_directives(old(unit)@, sections@),
{
    let idx = sections.section_index("Unit");
    match idx {
        None => {},
        Some(s) => {
            let section = &sections.sections[s];
            let ghost d = section@.directives;
            let ghost u0 = unit@;
            let mut i: usize = 0;
            while i < section.directives.len()
                invariant
                    d == section@.directives,
                    i <= d.len(),
                    unit@ == unit_directives_fold(u0, d.subrange(0, i as int)),
                decreases section.directives.len() - i,
            {
                let directive = &section.directives[i];
                let values = directive.value.values();
                let ghost before = unit@;
                proof {
                    let p = d.subrange(0, i + 1);
                    assert(p.drop_last() =~= d.subrange(0, i as int));
                    assert(p.last() == directive@);
                }
                let name = directive.name.as_str();
                let mut j: usize = 0;
                if str_eq(name, "Requires") {
                    while j < values.len()
                        invariant
                            j <= values.len(),
                            unit@ == (UnitView { requires: before.requires + texts(values@.subrange(0, j as int)), ..before }),
                        decreases values.len() - j,
                    {
                        unit.add_requires(values[j].clone());
                        assert(texts(values@.subrange(0, j + 1)) =~= texts(values@.subrange(0, j as int)).push(values@[j as int]@));
                        j = j + 1;
                    }
                } else if str_eq(name, "After") {
                    while j < values.len()
                        invariant
                            j <= values.len(),
                            unit@ == (UnitView { after: before.after + texts(values@.subrange(0, j as int)), ..before }),
                        decreases values.len() - j,
                    {
                        unit.add_after(values[j].clone());
                        assert(texts(values@.subrange(0, j + 1)) =~= texts(values@.subrange(0, j as int)).push(values@[j as int]@));
                        j = j + 1;
                    }
                } else if str_eq(name, "Wants") {
                    while j < values.len()
                        invariant
                            j <= values.len(),
                            unit@ == (UnitView { wants: before.wants + texts(values@.subrange(0, j as int)), ..before }),
                        decreases values.len() - j,
                    {
                        unit.add_wants(values[j].clone());
                        assert(texts(values@.subrange(0, j + 1)) =~= texts(values@.subrange(0, j as int)).push(values@[j as int]@));
                        j = j + 1;
                    }
                } else if str_eq(name, "Before") {
                    while j < values.len()
                        invariant
                            j <= values.len(),
                            unit@ == (UnitView { before: before.before + texts(values@.subrange(0, j as int)), ..before }),
                        decreases values.len() - j,
                    {
                        unit.add_before(values[j].clone());
                        assert(texts(values@.subrange(0, j + 1)) =~= texts(values@.subrange(0, j as int)).push(values@[j as int]@));
                        j = j + 1;
                    }
                } else if str_eq(name, "BindsTo") {
                    while j < values.len()
                        invariant
                            j <= values.len(),
                            unit@ == (UnitView { binds_to: before.binds_to + texts(values@.subrange(0, j as int)), ..before }),
                        decreases values.len() - j,
                    {
                        unit.add_binds_to(values[j].clone());
                        assert(texts(values@.subrange(0, j + 1)) =~= texts(values@.subrange(0, j as int)).push(values@[j as int]@));
                        j = j + 1;
                    }
                }
                assert(texts(values@.subrange(0, values.len() as int)) =~= texts(values@));
                i = i + 1;
            }
            assert(d.subrange(0, d.len() as int) =~= d);
        },
    }
}

/// Apply directives from the `Install` section of an `x-systemd` map to an [`Install`] section.
///
/// Recognised directives: `WantedBy`, `RequiredBy`; others are ignored.
pub fn apply_install_directives(sections: &XSystemdMap, install: &mut Install)
    ensures
        final(install)@ == install_directives(old(install)@, sections@),
{
    let idx = sections.section_index("Install");
    match idx {
        None => {},
        Some(s) => {
            let section = &sections.sections[s];
            let ghost d = section@.directives;
            let ghost i0 = install@;
            let mut i: usize = 0;
            while i < section.directives.len()
                invariant
                    d == section@.directives,
                    i <= d.len(),
                    install@ == install_directives_fold(i0, d.subrange(0, i as int)),
                decreases section.directives.len() - i,
            {
                let directive = &section.directives[i];
                let values = directive.value.values();
                proof {
                    let p = d.subrange(0, i + 1);
                    assert(p.drop_last() =~= d.subrange(0, i as int));
                    assert(p.last() == directive@);
                }
                let name = directive.name.as_str();
                if str_eq(name, "WantedBy") {
                    push_missing(&mut install.wanted_by, &values);
                } else if str_eq(name, "RequiredBy") {
                    push_missing(&mut install.required_by, &values);
                }
                i = i + 1;
            }
            assert(d.subrange(0, d.len() as int) =~= d);
        },
    }
}

/// The values of `Install.WantedBy` of an `x-systemd` map, or none.
pub fn wanted_by_of(sections: &XSystemdMap) -> (r: Vec<String>)
    ensures
        texts(r@) == install_wanted_by(sections@),
{
    match sections.section_index("Install") {
        None => {
            let r: Vec<String> = Vec::new();
            assert(texts(r@) =~= seq![]);
            r
        },
        Some(s) => {
            let section = &sections.sections[s];
            match section.directive_index("WantedBy") {
                None => {
                    let r: Vec<String> = Vec::new();
                    assert(texts(r@) =~= seq![]);
                    r
                },
                Some(k) => section.directives[k].value.values(),
            }
        },
    }
}

} // verus!
