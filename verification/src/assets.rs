//! Components loaded into memory at startup: each a template and an optional
//! style. Reading the files is the caller's work; here lives the cache and
//! the rule that picks each component's file names from its configuration.

use vstd::prelude::*;
use crate::manifest::ComponentConfig;

verus! {

/// A loaded, ready-to-render component.
#[derive(Debug, PartialEq, Eq)]
pub struct ComponentAsset {
    pub template: String,
    pub style: Option<String>,
}

/// The in-memory cache of loaded components, keyed by component name.
pub struct AssetLoader {
    components: Vec<(String, ComponentAsset)>,
}

/// The asset bound to name `n`: the first entry with that name, if any.
pub open spec fn lookup_component(
    cs: Seq<(String, ComponentAsset)>,
    n: Seq<char>,
) -> Option<ComponentAsset>
    decreases cs.len(),
{
    if cs.len() == 0 {
        Option::None
    } else if cs[0].0@ == n {
        Option::Some(cs[0].1)
    } else {
        lookup_component(cs.drop_first(), n)
    }
}

proof fn lemma_lookup_component_found(cs: Seq<(String, ComponentAsset)>, n: Seq<char>, idx: int)
    requires
        0 <= idx < cs.len(),
        cs[idx].0@ == n,
        forall|j: int| 0 <= j < idx ==> cs[j].0@ != n,
    ensures
        lookup_component(cs, n) == Option::Some(cs[idx].1),
    decreases idx,
{
    if idx == 0 {
    } else {
        lemma_lookup_component_found(cs.drop_first(), n, idx - 1);
    }
}

proof fn lemma_lookup_component_absent(cs: Seq<(String, ComponentAsset)>, n: Seq<char>)
    requires
        forall|j: int| 0 <= j < cs.len() ==> cs[j].0@ != n,
    ensures
        lookup_component(cs, n) is None,
    decreases cs.len(),
{
    if cs.len() > 0 {
        lemma_lookup_component_absent(cs.drop_first(), n);
    }
}

impl AssetLoader {
    pub closed spec fn view(&self) -> Seq<(String, ComponentAsset)> {
        self.components@
    }

    /// A cache over components already read into memory.
    pub fn from_components(components: Vec<(String, ComponentAsset)>) -> (r: AssetLoader)
        ensures
            r@ == components@,
    {
        AssetLoader { components }
    }

    /// The cached component of that name, if one was loaded.
    pub fn get_component<'a>(&'a self, name: &str) -> (r: Option<&'a ComponentAsset>)
        ensures
            match r {
                Option::Some(c) => lookup_component(self@, name@) == Option::Some(*c),
                Option::None => lookup_component(self@, name@) is None,
            },
    {
        let key: String = name.to_owned();
        let mut idx: usize = 0;
        while idx < self.components.len()
            invariant
                key@ == name@,
                0 <= idx <= self.components@.len(),
                forall|j: int| 0 <= j < idx ==> self.components@[j].0@ != name@,
            decreases self.components@.len() - idx,
        {
            if self.components[idx].0 == key {
                proof {
                    lemma_lookup_component_found(self.components@, name@, idx as int);
                }
                return Option::Some(&self.components[idx].1);
            }
            idx = idx + 1;
        }
        proof {
            lemma_lookup_component_absent(self.components@, name@);
        }
        Option::None
    }
}

/// Which files a component's configuration names: the template file, and the
/// style file if the detailed form carries one. Joining these names onto the
/// components directory and reading them is the caller's work.
pub fn component_file_names(config: &ComponentConfig) -> (r: (String, Option<String>))
    ensures
        match config {
            ComponentConfig::Simple(t) => r.0@ == t@ && r.1 is None,
            ComponentConfig::Detailed { template, style } => r.0@ == template@ && (match style {
                Option::Some(sf) => r.1 matches Option::Some(s) && s@ == sf@,
                Option::None => r.1 is None,
            }),
        },
{
    match config {
        ComponentConfig::Simple(t) => (t.clone(), Option::None),
        ComponentConfig::Detailed { template, style } => {
            let s = match style {
                Option::Some(sf) => Option::Some(sf.clone()),
                Option::None => Option::None,
            };
            (template.clone(), s)
        },
    }
}

} // verus!
