pub mod any_box;
pub mod content;
pub mod dynobj;
pub mod ext_obj;
pub mod fx_map;
pub mod laws;
pub mod obj;
pub mod ty_store;

pub use dynobj::DynObj;
pub use ext_obj::{Defs, ExtObj, Var};
pub use obj::{Obj, ObjInner, UnsafeObj};
pub use ty_store::TyStore;
