use vstd::prelude::*;

use crate::adapter::ValTag;

verus! {

/// Which call adapter an export routes to.
#[derive(Clone, Copy, Debug, PartialEq, Eq, Structural)]
pub enum AdapterId {
    Adler32,
    Crc32,
    DeflateInit,
}

/// One entry of the export surface: a stable name, the declared
/// argument and result tags, and the adapter behind them.
pub struct Export {
    pub name: &'static str,
    pub params: Vec<ValTag>,
    pub results: Vec<ValTag>,
    pub adapter: AdapterId,
}

/// The module's immutable descriptor, produced once at load time.
pub struct ModuleDescriptor {
    pub name: &'static str,
    pub description: &'static str,
    pub api_version: u32,
    pub module_version: u32,
    pub function_count: usize,
    pub exports: Vec<Export>,
}

/// The one export table this module ever exposes: the two checksum
/// functions under their three-argument signature, and the stream
/// initializer under its four-argument signature, all returning one
/// 32-bit value.
pub open spec fn export_table_ok(t: Seq<Export>) -> bool {
    &&& t.len() == 3
    &&& t[0].name@ == "adler32"@
    &&& t[0].params@ == seq![ValTag::I32, ValTag::I32, ValTag::I32]
    &&& t[0].results@ == seq![ValTag::I32]
    &&& t[0].adapter == AdapterId::Adler32
    &&& t[1].name@ == "crc32"@
    &&& t[1].params@ == seq![ValTag::I32, ValTag::I32, ValTag::I32]
    &&& t[1].results@ == seq![ValTag::I32]
    &&& t[1].adapter == AdapterId::Crc32
    &&& t[2].name@ == "deflateInit"@
    &&& t[2].params@ == seq![ValTag::I32, ValTag::I32, ValTag::I32, ValTag::I32]
    &&& t[2].results@ == seq![ValTag::I32]
    &&& t[2].adapter == AdapterId::DeflateInit
}

/// Builds the export table: append-only in spirit, it is produced once
/// at module load and never mutated afterwards.  Name lookup itself is
/// the host runtime's business; an unresolved name never reaches this
/// layer's error taxonomy.
pub fn export_table() -> (t: Vec<Export>)
    ensures
        export_table_ok(t@),
{
    let mut t: Vec<Export> = Vec::new();
    t.push(
        Export {
            name: "adler32",
            params: vec![ValTag::I32, ValTag::I32, ValTag::I32],
            results: vec![ValTag::I32],
            adapter: AdapterId::Adler32,
        },
    );
    t.push(
        Export {
            name: "crc32",
            params: vec![ValTag::I32, ValTag::I32, ValTag::I32],
            results: vec![ValTag::I32],
            adapter: AdapterId::Crc32,
        },
    );
    t.push(
        Export {
            name: "deflateInit",
            params: vec![ValTag::I32, ValTag::I32, ValTag::I32, ValTag::I32],
            results: vec![ValTag::I32],
            adapter: AdapterId::DeflateInit,
        },
    );
    proof {
        assert(t@[0].params@ =~= seq![ValTag::I32, ValTag::I32, ValTag::I32]);
        assert(t@[0].results@ =~= seq![ValTag::I32]);
        assert(t@[1].params@ =~= seq![ValTag::I32, ValTag::I32, ValTag::I32]);
        assert(t@[1].results@ =~= seq![ValTag::I32]);
        assert(t@[2].params@ =~= seq![ValTag::I32, ValTag::I32, ValTag::I32, ValTag::I32]);
        assert(t@[2].results@ =~= seq![ValTag::I32]);
    }
    t
}

/// Builds the module descriptor around the export table.  The host
/// runtime supplies the plugin interface version it was built against;
/// everything else is fixed for the process lifetime.
pub fn module_descriptor(api_version: u32) -> (d: ModuleDescriptor)
    ensures
        d.name@ == "zlib"@,
        d.description@ == "Zlib bindings"@,
        d.api_version == api_version,
        d.module_version == 0,
        d.function_count == 3,
        d.function_count == d.exports@.len(),
        export_table_ok(d.exports@),
{
    let exports = export_table();
    let function_count = exports.len();
    ModuleDescriptor {
        name: "zlib",
        description: "Zlib bindings",
        api_version,
        module_version: 0,
        function_count,
        exports,
    }
}

} // verus!
