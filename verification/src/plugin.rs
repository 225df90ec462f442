//! The plugin registry: host functions a script may call, grouped into
//! packages. The registry stores each function's metadata beside its body
//! and never looks inside the body, so the body's type `F` is left to the
//! host.

use vstd::prelude::*;

use crate::proto::{PluginFunction, PluginPackage};

verus! {

/// A host function: its identity, its human-readable name and description,
/// and the callable body the host supplied for it.
pub struct CorePluginFunction<F> {
    /// Identifier of the function.
    pub id: String,
    /// Name the function is known by.
    pub name: String,
    /// The callable body.
    pub func: F,
    /// What the function does.
    pub description: String,
}

impl<F> CorePluginFunction<F> {
    /// A plugin function made of exactly the given parts. Nothing is
    /// validated.
    pub fn new(id: String, name: String, description: String, func: F) -> (function: Self)
        ensures
            function == (CorePluginFunction { id, name, func, description }),
    {
        Self { id, name, func, description }
    }

    /// A plugin function whose identifier, name and description are those
    /// of `plugin_function` and whose body is `function`.
    pub fn new_from_plugin_function(plugin_function: &PluginFunction, function: F) -> (made: Self)
        ensures
            made == (CorePluginFunction {
                id: plugin_function.function_id,
                name: plugin_function.function_name,
                func: function,
                description: plugin_function.description,
            }),
    {
        Self {
            id: plugin_function.function_id.clone(),
            name: plugin_function.function_name.clone(),
            func: function,
            description: plugin_function.description.clone(),
        }
    }
}

/// An ordered group of host functions under one identifier and name.
pub struct CorePluginPackage<F> {
    /// Identifier of the package.
    pub id: String,
    /// Name of the package.
    pub name: String,
    /// The functions of the package, in their order.
    pub functions: Vec<CorePluginFunction<F>>,
}

impl<F> CorePluginPackage<F> {
    /// A package made of exactly the given parts. Nothing is validated:
    /// functions that share an identifier stay side by side.
    pub fn new(id: String, name: String, functions: Vec<CorePluginFunction<F>>) -> (package: Self)
        ensures
            package == (CorePluginPackage { id, name, functions }),
    {
        Self { id, name, functions }
    }

    /// A package whose identifier and name are those of `plugin_package`
    /// and whose functions are `functions`. The functions listed in the
    /// descriptor are not consulted.
    pub fn new_from_plugin_package(
        plugin_package: &PluginPackage,
        functions: Vec<CorePluginFunction<F>>,
    ) -> (package: Self)
        ensures
            package == (CorePluginPackage {
                id: plugin_package.package_id,
                name: plugin_package.package_name,
                functions,
            }),
    {
        Self {
            id: plugin_package.package_id.clone(),
            name: plugin_package.package_name.clone(),
            functions,
        }
    }
}

/// The host functions of `packages` as one list: package after package,
/// and within a package function after function. Nothing is dropped,
/// whatever names or identifiers repeat.
pub open spec fn flattened<F>(packages: Seq<CorePluginPackage<F>>) -> Seq<CorePluginFunction<F>> {
    packages.map_values(|p: CorePluginPackage<F>| p.functions@).flatten()
}

/// The functions that a list of references points to.
pub open spec fn referents<F>(list: Seq<&CorePluginFunction<F>>) -> Seq<CorePluginFunction<F>> {
    list.map_values(|f: &CorePluginFunction<F>| *f)
}

/// Flattens `packages` into one list of host functions, in package order
/// and then function order.
pub fn flatten_packages<F>(packages: &Vec<CorePluginPackage<F>>) -> (list: Vec<
    &CorePluginFunction<F>,
>)
    ensures
        referents(list@) == flattened(packages@),
{
    let mut list: Vec<&CorePluginFunction<F>> = Vec::new();
    let mut i: usize = 0;
    assert(packages@.take(0).map_values(|p: CorePluginPackage<F>| p.functions@) =~= Seq::<
        Seq<CorePluginFunction<F>>,
    >::empty());
    assert(referents(list@) =~= flattened(packages@.take(0)));
    while i < packages.len()
        invariant
            i <= packages.len(),
            referents(list@) == flattened(packages@.take(i as int)),
        decreases packages.len() - i,
    {
        let package = &packages[i];
        let ghost done = flattened(packages@.take(i as int));
        let mut j: usize = 0;
        assert(package.functions@.take(0) =~= Seq::<CorePluginFunction<F>>::empty());
        assert(referents(list@) =~= done + package.functions@.take(0));
        while j < package.functions.len()
            invariant
                j <= package.functions.len(),
                referents(list@) == done + package.functions@.take(j as int),
            decreases package.functions.len() - j,
        {
            let ghost before = referents(list@);
            list.push(&package.functions[j]);
            assert(referents(list@) =~= before.push(package.functions@[j as int]));
            assert(package.functions@.take(j + 1) =~= package.functions@.take(j as int).push(
                package.functions@[j as int],
            ));
            assert(referents(list@) =~= done + package.functions@.take(j + 1));
            j += 1;
        }
        proof {
            assert(package.functions@.take(j as int) =~= package.functions@);
            let lists = packages@.take(i as int).map_values(
                |p: CorePluginPackage<F>| p.functions@,
            );
            assert(packages@.take(i + 1).map_values(|p: CorePluginPackage<F>| p.functions@)
                =~= lists.push(package.functions@));
            lists.lemma_flatten_push(package.functions@);
        }
        i += 1;
    }
    assert(packages@.take(i as int) =~= packages@);
    list
}

} // verus!
