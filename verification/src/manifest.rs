use vstd::prelude::*;
use crate::text::{lower_seq, to_chars, eq_ignore_case, chars_eq_str};
use crate::resolver::{spec_alias_lookup, alias_lookup, opt_matches};

verus! {

/// The per-tool record persisted beside a tool's installs: its custom
/// aliases, the set of installed versions, and the default version.
/// Loading and flushing the record are the caller's concern; every
/// mutation here is pure and leaves the record ready to be flushed.
pub struct Manifest {
    pub aliases: Vec<(String, String)>,
    pub installed_versions: Vec<String>,
    pub default_version: Option<String>,
}

/// Whether some member of `list` spells `v`.
pub open spec fn spec_has_string(list: Seq<String>, v: Seq<char>) -> bool {
    exists|i: int| 0 <= i < list.len() && list[i]@ == v
}

/// The alias table with every entry for `name` (case-insensitively)
/// removed.
pub open spec fn spec_without_alias(t: Seq<(String, String)>, name: Seq<char>) -> Seq<
    (String, String),
>
    decreases t.len(),
{
    if t.len() == 0 {
        t
    } else if lower_seq(t[0].0@) == lower_seq(name) {
        spec_without_alias(t.drop_first(), name)
    } else {
        seq![t[0]] + spec_without_alias(t.drop_first(), name)
    }
}

/// Removing one name's entries leaves every other name's lookup
/// untouched, and leaves the removed name unbound.
pub proof fn lemma_without_alias_lookup(t: Seq<(String, String)>, name: Seq<char>, n: Seq<char>)
    ensures
        lower_seq(n) != lower_seq(name) ==> spec_alias_lookup(spec_without_alias(t, name), n)
            == spec_alias_lookup(t, n),
        spec_alias_lookup(spec_without_alias(t, name), name) is None,
    decreases t.len(),
{
    if t.len() > 0 {
        lemma_without_alias_lookup(t.drop_first(), name, n);
        if lower_seq(t[0].0@) != lower_seq(name) {
            let w = seq![t[0]] + spec_without_alias(t.drop_first(), name);
            assert(w[0] == t[0]);
            assert(w.drop_first() =~= spec_without_alias(t.drop_first(), name));
        }
    }
}

fn without_alias_from(t: &Vec<(String, String)>, name: &Vec<char>, i: usize) -> (r: Vec<
    (String, String),
>)
    requires
        i <= t@.len(),
    ensures
        r@ == spec_without_alias(t@.skip(i as int), name@),
    decreases t@.len() - i,
{
    if i >= t.len() {
        proof {
            assert(t@.skip(i as int) =~= Seq::<(String, String)>::empty());
        }
        Vec::new()
    } else {
        proof {
            assert(t@.skip(i as int)[0] == t@[i as int]);
            assert(t@.skip(i as int).drop_first() =~= t@.skip(i as int + 1));
        }
        let rest = without_alias_from(t, name, i + 1);
        if eq_ignore_case(t[i].0.as_str(), name) {
            rest
        } else {
            let mut r: Vec<(String, String)> = Vec::new();
            r.push((t[i].0.clone(), t[i].1.clone()));
            let mut j: usize = 0;
            while j < rest.len()
                invariant
                    0 <= j <= rest@.len(),
                    r@ =~= seq![t@[i as int]] + rest@.subrange(0, j as int),
                decreases rest@.len() - j,
            {
                r.push((rest[j].0.clone(), rest[j].1.clone()));
                j += 1;
            }
            proof {
                assert(rest@.subrange(0, rest@.len() as int) =~= rest@);
                assert(r@ =~= seq![t@[i as int]] + rest@);
            }
            r
        }
    }
}

impl Manifest {
    /// An empty record: no aliases, no installed versions, no default.
    pub fn new() -> (r: Manifest)
        ensures
            r.aliases@.len() == 0,
            r.installed_versions@.len() == 0,
            r.default_version is None,
    {
        Manifest { aliases: Vec::new(), installed_versions: Vec::new(), default_version: None }
    }

    /// The version a custom alias names, if any; case-insensitive.
    pub fn alias_value(&self, name: &String) -> (r: Option<String>)
        ensures
            opt_matches(r, spec_alias_lookup(self.aliases@, name@)),
    {
        let nv = to_chars(name.as_str());
        alias_lookup(&self.aliases, &nv)
    }

    /// Bind an alias to a version, replacing any earlier binding of the
    /// same name; other aliases keep their values.
    pub fn set_alias(&mut self, name: &String, version: &String)
        ensures
            spec_alias_lookup(final (self).aliases@, name@) == Some(version@),
            forall|n: Seq<char>|
                lower_seq(n) != lower_seq(name@) ==> spec_alias_lookup(
                    final (self).aliases@,
                    n,
                ) == spec_alias_lookup(old(self).aliases@, n),
            final (self).installed_versions == old(self).installed_versions,
            final (self).default_version == old(self).default_version,
    {
        let nv = to_chars(name.as_str());
        proof {
            assert(self.aliases@.skip(0) =~= self.aliases@);
        }
        let mut table = without_alias_from(&self.aliases, &nv, 0);
        table.insert(0, (name.clone(), version.clone()));
        proof {
            assert(table@.drop_first() =~= spec_without_alias(self.aliases@, name@));
            assert forall|n: Seq<char>| lower_seq(n) != lower_seq(name@) implies spec_alias_lookup(
                table@,
                n,
            ) == spec_alias_lookup(self.aliases@, n) by {
                lemma_without_alias_lookup(self.aliases@, name@, n);
            }
        }
        self.aliases = table;
    }

    /// Drop an alias binding; other aliases keep their values.
    pub fn remove_alias(&mut self, name: &String)
        ensures
            spec_alias_lookup(final (self).aliases@, name@) is None,
            forall|n: Seq<char>|
                lower_seq(n) != lower_seq(name@) ==> spec_alias_lookup(
                    final (self).aliases@,
                    n,
                ) == spec_alias_lookup(old(self).aliases@, n),
            final (self).installed_versions == old(self).installed_versions,
            final (self).default_version == old(self).default_version,
    {
        let nv = to_chars(name.as_str());
        proof {
            assert(self.aliases@.skip(0) =~= self.aliases@);
        }
        let table = without_alias_from(&self.aliases, &nv, 0);
        proof {
            assert forall|n: Seq<char>| lower_seq(n) != lower_seq(name@) implies spec_alias_lookup(
                table@,
                n,
            ) == spec_alias_lookup(self.aliases@, n) by {
                lemma_without_alias_lookup(self.aliases@, name@, n);
            }
            lemma_without_alias_lookup(self.aliases@, name@, name@);
        }
        self.aliases = table;
    }

    /// Whether a version is recorded as installed.
    pub fn has_version(&self, version: &String) -> (r: bool)
        ensures
            r == spec_has_string(self.installed_versions@, version@),
    {
        let vv = to_chars(version.as_str());
        let mut i: usize = 0;
        while i < self.installed_versions.len()
            invariant
                0 <= i <= self.installed_versions@.len(),
                vv@ == version@,
                forall|j: int| 0 <= j < i ==> self.installed_versions@[j]@ != version@,
            decreases self.installed_versions@.len() - i,
        {
            if chars_eq_str(&vv, self.installed_versions[i].as_str()) {
                return true;
            }
            i += 1;
        }
        false
    }

    /// Record a version as installed; recording it twice keeps one
    /// entry.
    pub fn add_installed_version(&mut self, version: &String)
        ensures
            spec_has_string(final (self).installed_versions@, version@),
            final (self).installed_versions@ == old(self).installed_versions@ || (final (
                self
            ).installed_versions@.len() == old(self).installed_versions@.len() + 1 && final (
                self
            ).installed_versions@.subrange(0, old(self).installed_versions@.len() as int) == old(
                self,
            ).installed_versions@ && final (self).installed_versions@.last()@ == version@),
            final (self).aliases == old(self).aliases,
            final (self).default_version == old(self).default_version,
    {
        if !self.has_version(version) {
            self.installed_versions.push(version.clone());
            proof {
                let list = self.installed_versions@;
                assert(list[list.len() - 1]@ == version@);
            }
        }
    }
}

} // verus!
