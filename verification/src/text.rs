//! The static help texts, keyed by `(block, locale)`.
//!
//! Every block exists in both locales; each `(block, locale)` pair maps to
//! exactly one text constant, fixed at build time and never mutated. The
//! tables are fixed-width ASCII art; alignment of the alternate-locale cells
//! is a known cosmetic limitation, not part of any contract.

use vstd::prelude::*;
use crate::locale::Locale;

verus! {

/// One tier of the command overview, printed in this order.
#[derive(Clone, Copy, Debug, PartialEq, Eq, Structural)]
pub enum Tier {
    Basic,
    Middle,
    Advanced,
}

/// A command for which a detail block exists.
#[derive(Clone, Copy, Debug, PartialEq, Eq, Structural)]
pub enum Topic {
    Merge,
    Rebase,
    CherryPick,
}

pub const BASIC_COMMANDS_EN: &'static str = r#"
Basic Git Commands:
+-------------------------+------------------------------------------+
| Command                 | Description                              |
+-------------------------+------------------------------------------+
| clone <repo>            | Clone a repository into a new directory  |
| init                    | Create an empty Git repository           |
| add <file>              | Add file contents to the index           |
| commit -m "<message>"   | Record changes to the repository         |
| status                  | Show the working tree status             |
+-------------------------+------------------------------------------+
"#;

pub const BASIC_COMMANDS_JP: &'static str = r#"
基本的な Git コマンド:
+-------------------------+------------------------------------------+
| コマンド                | 説明                                     |
+-------------------------+------------------------------------------+
| clone <repo>            | リポジトリを新しいディレクトリにクローン |
| init                    | 空の Git リポジトリを作成                |
| add <file>              | ファイルの内容をインデックスに追加        |
| commit -m "<message>"   | リポジトリに変更を記録                   |
| status                  | 作業ツリーの状態を表示                   |
+-------------------------+------------------------------------------+
"#;

pub const MIDDLE_LEVEL_COMMANDS_EN: &'static str = r#"
Middle-level Git Commands:
+-------------------------+------------------------------------------+
| Command                 | Description                              |
+-------------------------+------------------------------------------+
| branch <branch-name>    | List, create, or delete branches         |
| checkout <branch-name>  | Switch branches or restore working tree  |
| merge <branch>          | Join two or more development histories   |
| log                     | Show commit logs                         |
| reset <commit>          | Reset current HEAD to the specified state|
+-------------------------+------------------------------------------+
"#;

pub const MIDDLE_LEVEL_COMMANDS_JP: &'static str = r#"
中級の Git コマンド:
+-------------------------+------------------------------------------+
| コマンド                | 説明                                     |
+-------------------------+------------------------------------------+
| branch <branch-name>    | ブランチの一覧表示、作成、削除           |
| checkout <branch-name>  | ブランチの切り替えまたは作業ツリーの復元  |
| merge <branch>          | 2つ以上の開発履歴を結合                 |
| log                     | コミットログを表示                       |
| reset <commit>          | 現在の HEAD を指定した状態にリセット     |
+-------------------------+------------------------------------------+
"#;

pub const ADVANCED_COMMANDS_EN: &'static str = r#"
Advanced Git Commands:
+-------------------------+------------------------------------------+
| Command                 | Description                              |
+-------------------------+------------------------------------------+
| rebase <branch>         | Reapply commits on top of another base   |
| cherry-pick <commit>    | Apply the changes introduced by some     |
| stash                   | Stash the changes in a dirty working dir |
| fetch                   | Download objects and refs from another   |
| pull                    | Fetch from and integrate with another    |
| push                    | Update remote refs along with associated |
+-------------------------+------------------------------------------+
"#;

pub const ADVANCED_COMMANDS_JP: &'static str = r#"
上級の Git コマンド:
+-------------------------+------------------------------------------+
| コマンド                | 説明                                     |
+-------------------------+------------------------------------------+
| rebase <branch>         | 別のベースの上にコミットを再適用        |
| cherry-pick <commit>    | 既存のコミットによって導入された変更を適用|
| stash                   | 汚れた作業ディレクトリの変更を一時保存  |
| fetch                   | 別のリポジトリからオブジェクトとリファレンスをダウンロード |
| pull                    | 別のリポジトリまたはローカルブランチからフェッチして統合 |
| push                    | リモートリファレンスと関連オブジェクトを更新 |
+-------------------------+------------------------------------------+
"#;

pub const MERGE_DETAILS_EN: &'static str = r#"
Git Merge Command:
+-------------------------+------------------------------------------+
| Command                 | Description                              |
+-------------------------+------------------------------------------+
| merge <branch>          | Join two or more development histories   |
+-------------------------+------------------------------------------+
| Suboption               | Description                              |
+-------------------------+------------------------------------------+
| --no-ff                 | Create a merge commit even when the      |
|                         | merge resolves as a fast-forward         |
| --squash                | Merge changes but do not commit them     |
| --strategy <strategy>   | Use the given merge strategy             |
+-------------------------+------------------------------------------+

Example:
    git merge feature-branch   Merge 'feature-branch' into the current branch
"#;

pub const MERGE_DETAILS_JP: &'static str = r#"
Git Merge コマンド:
+-------------------------+------------------------------------------+
| コマンド                | 説明                                     |
+-------------------------+------------------------------------------+
| merge <branch>          | 2つ以上の開発履歴を結合                 |
+-------------------------+------------------------------------------+
| サブオプション          | 説明                                     |
+-------------------------+------------------------------------------+
| --no-ff                 | マージがファストフォワードで解決する場合もマージコミットを作成 |
| --squash                | 変更をマージするがコミットはしない       |
| --strategy <strategy>   | 指定したマージ戦略を使用                |
+-------------------------+------------------------------------------+

例:
    git merge feature-branch   'feature-branch'を現在のブランチにマージ
"#;

pub const REBASE_DETAILS_EN: &'static str = r#"
Git Rebase Command:
+-------------------------+------------------------------------------+
| Command                 | Description                              |
+-------------------------+------------------------------------------+
| rebase <branch>         | Reapply commits on top of another base   |
+-------------------------+------------------------------------------+
| Suboption               | Description                              |
+-------------------------+------------------------------------------+
| --interactive           | Make a list of the commits which are about to be rebased |
| --onto <newbase>        | Transplant commits onto the given base   |
| --autosquash            | Automatically move commits that begin with squash! or fixup! |
+-------------------------+------------------------------------------+

Example:
    git rebase master      Reapply commits on top of the master branch
"#;

pub const REBASE_DETAILS_JP: &'static str = r#"
Git Rebase コマンド:
+-------------------------+------------------------------------------+
| コマンド                | 説明                                     |
+-------------------------+------------------------------------------+
| rebase <branch>         | 別のベースの上にコミットを再適用        |
+-------------------------+------------------------------------------+
| サブオプション          | 説明                                     |
+-------------------------+------------------------------------------+
| --interactive           | リベースしようとしているコミットのリストを作成 |
| --onto <newbase>        | 指定したベースにコミットを移植          |
| --autosquash            | squash! または fixup! で始まるコミットを自動的に移動 |
+-------------------------+------------------------------------------+

例:
    git rebase master      master ブランチの上にコミットを再適用
"#;

pub const CHERRY_PICK_DETAILS_EN: &'static str = r#"
Git Cherry-pick Command:
+-------------------------+------------------------------------------+
| Command                 | Description                              |
+-------------------------+------------------------------------------+
| cherry-pick <commit>    | Apply the changes introduced by some     |
|                         | existing commits                         |
+-------------------------+------------------------------------------+
| Suboption               | Description                              |
+-------------------------+------------------------------------------+
| --no-commit             | Apply the changes but do not commit them |
| --edit                  | Edit the commit message before committing|
| --signoff               | Add a Signed-off-by line at the end of the commit message |
+-------------------------+------------------------------------------+

Example:
    git cherry-pick abc123 Apply the changes introduced by commit abc123
"#;

pub const CHERRY_PICK_DETAILS_JP: &'static str = r#"
Git Cherry-pick コマンド:
+-------------------------+------------------------------------------+
| コマンド                | 説明                                     |
+-------------------------+------------------------------------------+
| cherry-pick <commit>    | 既存のコミットによって導入された変更を適用 |
+-------------------------+------------------------------------------+
| サブオプション          | 説明                                     |
+-------------------------+------------------------------------------+
| --no-commit             | 変更を適用するがコミットしない          |
| --edit                  | コミットメッセージを編集                |
| --signoff               | コミットメッセージの最後に Signed-off-by 行を追加 |
+-------------------------+------------------------------------------+

例:
    git cherry-pick abc123 コミット abc123 によって導入された変更を適用
"#;

/// The text of one overview tier in one locale.
pub open spec fn overview_block_text(t: Tier, l: Locale) -> Seq<char> {
    match (t, l) {
        (Tier::Basic, Locale::En) => BASIC_COMMANDS_EN@,
        (Tier::Basic, Locale::Jp) => BASIC_COMMANDS_JP@,
        (Tier::Middle, Locale::En) => MIDDLE_LEVEL_COMMANDS_EN@,
        (Tier::Middle, Locale::Jp) => MIDDLE_LEVEL_COMMANDS_JP@,
        (Tier::Advanced, Locale::En) => ADVANCED_COMMANDS_EN@,
        (Tier::Advanced, Locale::Jp) => ADVANCED_COMMANDS_JP@,
    }
}

/// The detail text for one topic in one locale.
pub open spec fn detail_block_text(t: Topic, l: Locale) -> Seq<char> {
    match (t, l) {
        (Topic::Merge, Locale::En) => MERGE_DETAILS_EN@,
        (Topic::Merge, Locale::Jp) => MERGE_DETAILS_JP@,
        (Topic::Rebase, Locale::En) => REBASE_DETAILS_EN@,
        (Topic::Rebase, Locale::Jp) => REBASE_DETAILS_JP@,
        (Topic::CherryPick, Locale::En) => CHERRY_PICK_DETAILS_EN@,
        (Topic::CherryPick, Locale::Jp) => CHERRY_PICK_DETAILS_JP@,
    }
}

/// The overview block for one tier and locale.
pub fn overview_block(t: Tier, l: Locale) -> (r: &'static str)
    ensures
        r@ == overview_block_text(t, l),
{
    match (t, l) {
        (Tier::Basic, Locale::En) => BASIC_COMMANDS_EN,
        (Tier::Basic, Locale::Jp) => BASIC_COMMANDS_JP,
        (Tier::Middle, Locale::En) => MIDDLE_LEVEL_COMMANDS_EN,
        (Tier::Middle, Locale::Jp) => MIDDLE_LEVEL_COMMANDS_JP,
        (Tier::Advanced, Locale::En) => ADVANCED_COMMANDS_EN,
        (Tier::Advanced, Locale::Jp) => ADVANCED_COMMANDS_JP,
    }
}

/// The detail block for one topic and locale.
pub fn detail_block(t: Topic, l: Locale) -> (r: &'static str)
    ensures
        r@ == detail_block_text(t, l),
{
    match (t, l) {
        (Topic::Merge, Locale::En) => MERGE_DETAILS_EN,
        (Topic::Merge, Locale::Jp) => MERGE_DETAILS_JP,
        (Topic::Rebase, Locale::En) => REBASE_DETAILS_EN,
        (Topic::Rebase, Locale::Jp) => REBASE_DETAILS_JP,
        (Topic::CherryPick, Locale::En) => CHERRY_PICK_DETAILS_EN,
        (Topic::CherryPick, Locale::Jp) => CHERRY_PICK_DETAILS_JP,
    }
}

} // verus!

