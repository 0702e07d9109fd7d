pub mod messages;
pub mod model;
pub mod text;

pub use messages::ToDosMsg;
pub use model::ToDo;
pub use model::ToDosModel;
