use std::sync::Arc;

use singlepass::export::{
    ExportGlobal, ExportMemory, ExportTable, MemoryStyle, MemoryType, TableStyle, TableType,
    VmGlobal, VmMemory, VmTable,
};
use singlepass::location::WpType;

fn a_table() -> VmTable {
    VmTable {
        ty: TableType {
            ty: WpType::FuncRef,
            minimum: 1,
            maximum: Some(16),
        },
        style: TableStyle::CallerChecksSignature,
    }
}

fn a_memory() -> VmMemory {
    VmMemory {
        ty: MemoryType {
            minimum: 1,
            maximum: None,
            shared: false,
        },
        style: MemoryStyle::Static {
            bound: 1024,
            offset_guard_size: 65536,
        },
    }
}

#[test]
fn export_table_identity() {
    let table = Arc::new(a_table());
    let e1 = ExportTable {
        from: Arc::clone(&table),
    };
    let e2 = e1.clone();
    let e3 = ExportTable {
        from: Arc::new(a_table()),
    };
    assert!(e1.same(&e2));
    assert!(!e1.same(&e3));
}

#[test]
fn export_table_reports_type_and_style() {
    let e = ExportTable {
        from: Arc::new(a_table()),
    };
    assert_eq!(*e.ty(), a_table().ty);
    assert_eq!(*e.style(), TableStyle::CallerChecksSignature);
}

#[test]
fn export_memory_identity() {
    let memory = Arc::new(a_memory());
    let e1 = ExportMemory {
        from: Arc::clone(&memory),
    };
    let e2 = e1.clone();
    let e3 = ExportMemory {
        from: Arc::new(a_memory()),
    };
    assert!(e1.same(&e2));
    assert!(!e1.same(&e3));
}

#[test]
fn export_memory_reports_type_and_style() {
    let e = ExportMemory {
        from: Arc::new(a_memory()),
    };
    assert_eq!(*e.ty(), a_memory().ty);
    assert_eq!(
        *e.style(),
        MemoryStyle::Static {
            bound: 1024,
            offset_guard_size: 65536,
        }
    );
}

#[test]
fn export_global_identity() {
    let global = Arc::new(VmGlobal {
        ty: WpType::I64,
        mutability: true,
    });
    let e1 = ExportGlobal {
        from: Arc::clone(&global),
    };
    let e2 = e1.clone();
    let e3 = ExportGlobal {
        from: Arc::new(VmGlobal {
            ty: WpType::I64,
            mutability: true,
        }),
    };
    assert!(e1.same(&e2));
    assert!(!e1.same(&e3));
}
