pub mod blocks;
pub mod digits;
pub mod result;
pub mod websocket;
pub mod wire;
pub mod ser;
pub mod option_ser;
pub mod number_marker;
pub mod de;
pub mod accessors;
pub mod laws;

pub use blocks::MinecraftBlock;
pub use result::{MinecraftError, MinecraftResult};
pub use websocket::{MCWebSocket, BlockBuffer};
pub use ser::MinecraftSerializer;
pub use option_ser::{McKind, OptionSerializer};
pub use number_marker::NumberMarker;
pub use de::{MinecraftDeserializer, EnumKind, McIdentifier};
pub use accessors::{MCMapAccess, MCStructAccessor, MCTupleAccessor, MCEnumAccessor};
