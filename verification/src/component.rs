pub mod border;
pub mod list;
pub mod map_message;
pub mod paragraph;
pub mod routing;
pub mod scrollbar;
pub mod selection;
pub mod table;

pub use border::{border_strip, place_on_border, BorderOrientation};
pub use list::ListState;
pub use map_message::MapMessage;
pub use paragraph::ParagraphState;
pub use scrollbar::{scrollbar_metrics, ScrollbarMetrics, ScrollbarParams};
pub use table::TableState;
