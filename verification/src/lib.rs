//! A small Japanese-vocabulary learning toolset: a flashcard renderer with
//! ASCII-art kana tables, a static romaji/Chinese dictionary, and the
//! generation-guarded periodic scheduler that drives study reminders.

pub mod scheduler;
pub mod text;
pub mod art;
pub mod dict;
pub mod llm;
pub mod lookup;
pub mod notifier;
