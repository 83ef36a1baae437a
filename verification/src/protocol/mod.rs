//! Records and bookkeeping of the line-oriented RPC protocol.

pub mod alert;
pub mod client;
pub mod codec;
pub mod config;
pub mod endpoint;
pub mod errors;
pub mod findreplace;
pub mod language;
pub mod line;
pub mod measure_width;
pub mod message;
pub mod modifyselection;
pub mod notification;
pub mod operation;
pub mod plugins;
pub mod position;
pub mod scroll_to;
pub mod server;
pub mod style;
pub mod theme;
pub mod update;
pub mod view_id;
pub mod wire;

pub use self::alert::Alert;
pub use self::client::{InnerClient, InnerClientView, Polled};
pub use crate::channel::{AckTx, ResponseTx};
pub use self::codec::{find_line_end, put_line, split_line, Codec};
pub use self::config::{ConfigChanged, ConfigChanges};
pub use self::endpoint::{Action, Endpoint, Event, Outgoing, Progress};
pub use self::errors::{DecodeError, DecodeKind, EncodeError, RpcError};
pub use self::findreplace::{FindStatus, Query, ReplaceStatus, Status};
pub use self::language::{AvailableLanguages, LanguageChanged};
pub use self::line::{deserialize_styles, lines_from_value, Line, LineView, StyleDef, StylesError};
pub use self::measure_width::{MeasureWidth, MeasureWidthInner};
pub use self::message::{
    deserialize_json_rpc_result, Message, MessageView, Notification, Request, Response,
};
pub use self::modifyselection::ModifySelection;
pub use self::notification::{NotificationKind, XiNotification, XiNotificationView};
pub use self::operation::{
    deserialize_operation_type, operations_from_value, Operation, OperationType, OperationView,
};
pub use self::plugins::{AvailablePlugins, Plugin, PluginStarted, PluginStoped, UpdateCmds};
pub use self::position::Position;
pub use self::scroll_to::ScrollTo;
pub use self::server::{Call, Server, ServerView};
pub use self::style::{
    default_bg_color, default_italic, default_underline, default_weight, Style,
};
pub use self::theme::{AvailableThemes, ThemeChanged};
pub use self::update::{Annotation, Update, UpdateNotification, UpdateView};
pub use self::view_id::ViewId;
