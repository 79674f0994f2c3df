//! The process-wide table of resolved extension entry points.
//!
//! The table is filled once, from the addresses that the driver's resolver
//! returned, and never changes afterwards. [`ExtensionRegistry`] is the
//! initialise-once cell that holds it; the caller keeps the cell behind its
//! own lock and runs the bootstrap only when the cell asks for it.

use vstd::prelude::*;
use crate::extensions::WGLExtension;

verus! {

/// The entry points of extended pixel-format enumeration.
#[derive(Clone, Copy, Debug, PartialEq, Eq, Structural)]
pub struct WGLPixelFormatExtensionFunctions {
    pub choose_pixel_format_arb: usize,
    pub get_pixel_format_attribiv_arb: usize,
}

/// The entry points of Direct3D resource sharing.
#[derive(Clone, Copy, Debug, PartialEq, Eq, Structural)]
pub struct WGLDXInteropExtensionFunctions {
    pub dx_close_device_nv: usize,
    pub dx_lock_objects_nv: usize,
    pub dx_open_device_nv: usize,
    pub dx_register_object_nv: usize,
    pub dx_set_resource_share_handle_nv: usize,
    pub dx_unlock_objects_nv: usize,
    pub dx_unregister_object_nv: usize,
}

/// The addresses of the optional entry points; an absent entry means that
/// the driver lacks the capability.
#[derive(Clone, Copy, Debug, PartialEq, Eq, Structural)]
pub struct WGLExtensionFunctions {
    pub create_context_attribs_arb: Option<usize>,
    pub get_extensions_string_arb: Option<usize>,
    pub pixel_format_functions: Option<WGLPixelFormatExtensionFunctions>,
    pub dx_interop_functions: Option<WGLDXInteropExtensionFunctions>,
}

/// What a resolved address stands for: a null address is no entry point.
pub open spec fn entry_point_spec(address: usize) -> Option<usize> {
    if address == 0 {
        None
    } else {
        Some(address)
    }
}

pub fn entry_point(address: usize) -> (entry: Option<usize>)
    ensures
        entry == entry_point_spec(address),
{
    if address == 0 {
        None
    } else {
        Some(address)
    }
}

impl WGLExtensionFunctions {
    /// The table with every entry absent.
    pub open spec fn empty_spec() -> WGLExtensionFunctions {
        WGLExtensionFunctions {
            create_context_attribs_arb: None,
            get_extensions_string_arb: None,
            pixel_format_functions: None,
            dx_interop_functions: None,
        }
    }

    /// The table after the entry points of `extension` were resolved to
    /// `addresses`, given in the order of [`WGLExtension::symbols_spec`].
    pub open spec fn load_spec(self, extension: WGLExtension, addresses: Seq<usize>) -> WGLExtensionFunctions {
        match extension {
            WGLExtension::PixelFormat => WGLExtensionFunctions {
                pixel_format_functions: Some(
                    WGLPixelFormatExtensionFunctions {
                        choose_pixel_format_arb: addresses[0],
                        get_pixel_format_attribiv_arb: addresses[1],
                    },
                ),
                ..self
            },
            WGLExtension::CreateContext => WGLExtensionFunctions {
                create_context_attribs_arb: entry_point_spec(addresses[0]),
                ..self
            },
            WGLExtension::DXInterop => WGLExtensionFunctions {
                dx_interop_functions: Some(
                    WGLDXInteropExtensionFunctions {
                        dx_close_device_nv: addresses[0],
                        dx_lock_objects_nv: addresses[1],
                        dx_open_device_nv: addresses[2],
                        dx_register_object_nv: addresses[3],
                        dx_set_resource_share_handle_nv: addresses[4],
                        dx_unlock_objects_nv: addresses[5],
                        dx_unregister_object_nv: addresses[6],
                    },
                ),
                ..self
            },
        }
    }

    pub fn empty() -> (table: WGLExtensionFunctions)
        ensures
            table == WGLExtensionFunctions::empty_spec(),
    {
        WGLExtensionFunctions {
            create_context_attribs_arb: None,
            get_extensions_string_arb: None,
            pixel_format_functions: None,
            dx_interop_functions: None,
        }
    }

    /// Records the address of the entry point that returns the extension
    /// string.
    pub fn set_extensions_string_function(&mut self, address: usize)
        ensures
            *final(self) == (WGLExtensionFunctions {
                get_extensions_string_arb: entry_point_spec(address),
                ..*old(self)
            }),
    {
        self.get_extensions_string_arb = entry_point(address);
    }

    /// Records the resolved entry points of one listed capability.
    pub fn load(&mut self, extension: WGLExtension, addresses: &[usize])
        requires
            addresses@.len() == extension.symbols_spec().len(),
        ensures
            *final(self) == old(self).load_spec(extension, addresses@),
    {
        match extension {
            WGLExtension::PixelFormat => {
                self.pixel_format_functions = Some(
                    WGLPixelFormatExtensionFunctions {
                        choose_pixel_format_arb: addresses[0],
                        get_pixel_format_attribiv_arb: addresses[1],
                    },
                );
            },
            WGLExtension::CreateContext => {
                self.create_context_attribs_arb = entry_point(addresses[0]);
            },
            WGLExtension::DXInterop => {
                self.dx_interop_functions = Some(
                    WGLDXInteropExtensionFunctions {
                        dx_close_device_nv: addresses[0],
                        dx_lock_objects_nv: addresses[1],
                        dx_open_device_nv: addresses[2],
                        dx_register_object_nv: addresses[3],
                        dx_set_resource_share_handle_nv: addresses[4],
                        dx_unlock_objects_nv: addresses[5],
                        dx_unregister_object_nv: addresses[6],
                    },
                );
            },
        }
    }
}

/// The initialise-once cell of the extension table.
#[derive(Debug, PartialEq, Eq)]
pub struct ExtensionRegistry {
    pub table: Option<WGLExtensionFunctions>,
}

impl ExtensionRegistry {
    /// The cell after one caller resolved the table, with `bootstrapped` the
    /// table which that caller's bootstrap would produce: the first table
    /// stays.
    pub open spec fn resolve_spec(self, bootstrapped: WGLExtensionFunctions) -> ExtensionRegistry {
        match self.table {
            Some(_) => self,
            None => ExtensionRegistry { table: Some(bootstrapped) },
        }
    }

    /// The cell after the callers of `bootstraps` resolved the table one
    /// after the other.
    pub open spec fn resolve_all_spec(self, bootstraps: Seq<WGLExtensionFunctions>) -> ExtensionRegistry
        decreases bootstraps.len(),
    {
        if bootstraps.len() == 0 {
            self
        } else {
            self.resolve_spec(bootstraps[0]).resolve_all_spec(bootstraps.drop_first())
        }
    }

    /// How many of these callers had to run the bootstrap.
    pub open spec fn bootstrap_runs_spec(self, bootstraps: Seq<WGLExtensionFunctions>) -> nat
        decreases bootstraps.len(),
    {
        if bootstraps.len() == 0 {
            0
        } else {
            (if self.table is None { 1nat } else { 0nat })
            + self.resolve_spec(bootstraps[0]).bootstrap_runs_spec(bootstraps.drop_first())
        }
    }

    /// The cell before any caller asked for the table.
    pub fn new() -> (registry: ExtensionRegistry)
        ensures
            registry.table is None,
    {
        ExtensionRegistry { table: None }
    }

    /// Whether the caller has to run the bootstrap before it resolves.
    pub fn needs_bootstrap(&self) -> (needed: bool)
        ensures
            needed == (self.table is None),
    {
        self.table.is_none()
    }

    /// Installs `bootstrapped` if the cell is still empty and returns the
    /// table that every caller sees.
    pub fn resolve(&mut self, bootstrapped: WGLExtensionFunctions) -> (table: WGLExtensionFunctions)
        ensures
            *final(self) == old(self).resolve_spec(bootstrapped),
            final(self).table == Some(table),
    {
        match self.table {
            Some(table) => table,
            None => {
                self.table = Some(bootstrapped);
                bootstrapped
            },
        }
    }

    /// The table, once it was resolved.
    pub fn get(&self) -> (table: Option<WGLExtensionFunctions>)
        ensures
            table == self.table,
    {
        self.table
    }
}

/// Idempotent registry: of any number of callers that resolve the table of
/// a fresh cell one after the other, only the first runs the bootstrap, and
/// every one of them sees the table which that bootstrap produced.
pub proof fn lemma_registry_resolves_once(
    registry: ExtensionRegistry,
    bootstraps: Seq<WGLExtensionFunctions>,
)
    requires
        registry.table is None,
        bootstraps.len() > 0,
    ensures
        registry.bootstrap_runs_spec(bootstraps) == 1,
        forall|callers: int|
            0 < callers <= bootstraps.len() ==> (#[trigger] registry.resolve_all_spec(
                bootstraps.take(callers),
            )).table == Some(bootstraps[0]),
{
    lemma_registry_keeps_first_table(registry, bootstraps);
    assert forall|callers: int| 0 < callers <= bootstraps.len() implies (
    #[trigger] registry.resolve_all_spec(bootstraps.take(callers))).table == Some(
        bootstraps[0],
    ) by {
        lemma_registry_keeps_first_table(registry, bootstraps.take(callers));
    }
}

/// Whatever later callers bring, a cell keeps the table that it holds, and a
/// cell that holds a table never asks for a bootstrap again; an empty cell
/// takes the table of the first caller and asks for one bootstrap.
pub proof fn lemma_registry_keeps_first_table(
    registry: ExtensionRegistry,
    bootstraps: Seq<WGLExtensionFunctions>,
)
    requires
        bootstraps.len() > 0,
    ensures
        registry.table is None ==> registry.resolve_all_spec(bootstraps).table == Some(
            bootstraps[0],
        ),
        registry.table is Some ==> registry.resolve_all_spec(bootstraps) == registry,
        registry.table is None ==> registry.bootstrap_runs_spec(bootstraps) == 1,
        registry.table is Some ==> registry.bootstrap_runs_spec(bootstraps) == 0,
    decreases bootstraps.len(),
{
    let next = registry.resolve_spec(bootstraps[0]);
    let rest = bootstraps.drop_first();
    if rest.len() > 0 {
        lemma_registry_keeps_first_table(next, rest);
    } else {
        assert(next.resolve_all_spec(rest) == next);
        assert(next.bootstrap_runs_spec(rest) == 0);
    }
}

} // verus!
