//! Core of a small modal journaling editor: a line buffer with its editing
//! primitives, mode-aware cursor movement, a Normal/Insert/Command state
//! machine, literal search, viewport tracking and typing-time accounting.

pub mod config;
pub mod edit;
pub mod editor;
pub mod keys;
pub mod motion;
pub mod notes;
pub mod search;
pub mod session;
pub mod stats;
pub mod text;
pub mod typing;
pub mod view;

pub use config::{
    default_prompt_style, default_show_prompts, default_tab_size, default_typing_timeout_seconds,
    default_use_ai_prompts, default_vim_bindings, expand_home, Config, DailyPrompt,
};
pub use editor::{Editor, Mode};
pub use keys::{Key, KeyEvent};
pub use session::Chores;
pub use view::{Frame, Goal, WORD_GOAL};
pub use notes::{note_file_name, note_header, stats_file_name, Date};
pub use search::{find_backward, find_forward, occurs};
pub use stats::{active_entries, summarize, Summary};
pub use text::{count_line_words, count_text_words, join_lines, loaded_lines, split_lines};
pub use typing::TypingTracker;
