//! Key flows end to end, with a small stand-in for the composition engine: a buffer of
//! typed keys, a fixed word table and the full-width punctuation of a few marks.

use qingjian_linux::config::{HostConfig, LayoutMode, Modifiers, Scheme, SwitchKey};
use qingjian_linux::dispatch::{dispatch_inner, next_frame, FrameRequest, PressedKey};
use qingjian_linux::host::Host;
use qingjian_linux::keymap::Key;
use qingjian_linux::keys::{self, CommandKey, Outcome};
use qingjian_linux::modifiers::ModifierState;
use qingjian_linux::plan::{Effect, EngineView, Plan};
use qingjian_linux::present::{frame_after_change, frame_of, Frame, QueryView, Typed};
use qingjian_linux::session::Candidate;

/// Stand-in engine.
struct Engine {
    buffer: String,
    english: bool,
    question_mark: bool,
    shuangpin: bool,
    shift_letter_compose: bool,
    passthrough: Vec<char>,
    page_turns: usize,
}

const SYLLABLES: [&str; 8] = ["kai", "fan", "fa", "ni", "hao", "gong", "zuo", "ma"];

fn words(pinyin: &str) -> Vec<&'static str> {
    match pinyin {
        "kaifa" => vec!["开发", "凯发", "开", "凯"],
        "kaifan" => vec!["开饭", "开"],
        "kai" => vec!["开", "凯"],
        "ni" => vec!["你", "尼", "泥"],
        "nihao" => vec![
            "你好", "拟好", "你", "尼", "泥", "倪", "逆", "匿", "腻", "妮", "霓", "昵",
        ],
        _ => Vec::new(),
    }
}

const ENGLISH: [&str; 4] = ["hello", "hell", "help", "helmet"];

impl Engine {
    fn new() -> Self {
        Engine {
            buffer: String::new(),
            english: false,
            question_mark: false,
            shuangpin: false,
            shift_letter_compose: false,
            passthrough: Vec::new(),
            page_turns: 0,
        }
    }

    fn expression_mode(&self) -> bool {
        if self.shuangpin {
            self.buffer.starts_with('V')
        } else {
            self.buffer.starts_with('v')
        }
    }

    fn question_mode(&self) -> bool {
        self.buffer.starts_with('?')
    }

    fn view(&self, c: Option<char>) -> EngineView {
        let mode_letter = match c {
            Some('V') | Some('U') => self.shuangpin,
            Some('v') => !self.shuangpin,
            _ => false,
        };
        EngineView {
            composing: !self.buffer.is_empty(),
            english_mode: self.english,
            takes_question_mark: self.question_mark,
            takes_mode_letter: mode_letter,
            question_mode: self.question_mode(),
            expression_mode: self.expression_mode(),
            raw_mode: self.buffer.contains('-'),
            unicode_entry: false,
            takes_semicolon: false,
            expression_char: c.is_some_and(|c| "0123456789+-*/^().%".contains(c)),
            bare_question: self.buffer == "?",
            shift_letter_compose: self.shift_letter_compose,
        }
    }

    fn punctuate(&self, c: char) -> Option<String> {
        let full = match c {
            ',' => "，",
            '.' => "。",
            '!' => "！",
            '?' => "？",
            '$' => "￥",
            _ => return None,
        };
        Some(full.to_owned())
    }

    /// Splits full pinyin into syllables joined by `'`.
    fn marked(pinyin: &str) -> Option<String> {
        if pinyin.is_empty() {
            return Some(String::new());
        }
        for syllable in SYLLABLES {
            if let Some(rest) = pinyin.strip_prefix(syllable) {
                if let Some(tail) = Engine::marked(rest) {
                    return Some(if tail.is_empty() {
                        syllable.to_owned()
                    } else {
                        format!("{syllable}'{tail}")
                    });
                }
            }
        }
        None
    }

    fn pinyin(&self) -> String {
        if self.shuangpin {
            // Xiaohe: n+i = ni, h+c = hao.
            match self.buffer.as_str() {
                "nihc" => "nihao".to_owned(),
                other => other.to_owned(),
            }
        } else {
            self.buffer.clone()
        }
    }

    fn query(&self) -> Option<QueryView> {
        if self.english {
            let candidates = ENGLISH
                .iter()
                .filter(|w| w.starts_with(&self.buffer))
                .map(|w| Candidate { text: (*w).to_owned() })
                .collect();
            return Some(QueryView {
                marked_text: self.buffer.clone(),
                marked_cursor: self.buffer.len(),
                candidates,
            });
        }
        if self.expression_mode() || self.buffer.contains(|c: char| !c.is_ascii_lowercase()) {
            if self.buffer.chars().next().is_some_and(|c| c.is_ascii_uppercase()) {
                return None;
            }
            return Some(QueryView {
                marked_text: self.buffer.clone(),
                marked_cursor: self.buffer.len(),
                candidates: Vec::new(),
            });
        }
        let pinyin = self.pinyin();
        let marked = Engine::marked(&pinyin)?;
        let candidates = words(&pinyin)
            .into_iter()
            .map(|w| Candidate { text: w.to_owned() })
            .collect();
        Some(QueryView {
            marked_cursor: marked.len(),
            marked_text: marked,
            candidates,
        })
    }

    fn typed(&self) -> Typed {
        Typed {
            text: self.buffer.clone(),
            cursor: self.buffer.len(),
        }
    }
}

fn config() -> HostConfig<()> {
    HostConfig {
        page_size: 9,
        page_keys: ('[', ']'),
        english_mode: true,
        english_candidates: true,
        switch_mode: SwitchKey::Shift,
        delete_candidate: Modifiers::shift_only(),
        raw_preedit: false,
        layout: LayoutMode::Horizontal,
        scheme: Scheme::Pinyin,
    }
}

/// Host and engine, driven one key event at a time.
struct Driver {
    host: Host,
    engine: Engine,
    commits: Vec<String>,
}

impl Driver {
    fn new() -> Self {
        Driver::with_config(config())
    }

    fn with_config(config: HostConfig<()>) -> Self {
        Driver {
            host: Host::with_config(config).0,
            engine: Engine::new(),
            commits: Vec::new(),
        }
    }

    fn perform(&mut self, effect: Effect, outcome: &mut Outcome) {
        match effect {
            Effect::SetEnglishMode(on) => self.engine.english = on,
            Effect::Push(c) => self.engine.buffer.push(c),
            Effect::NotePassthrough(c) => self.engine.passthrough.push(c),
            Effect::NotePageTurn => self.engine.page_turns += 1,
            Effect::NoteBackspace => {}
            Effect::Backspace => {
                self.engine.buffer.pop();
            }
            Effect::DeleteForward => {}
            Effect::Clear => self.engine.buffer.clear(),
            Effect::CursorLeft | Effect::CursorRight | Effect::CursorHome | Effect::CursorEnd => {}
            Effect::CommitCandidate(index) => {
                let text = self.host.session.candidate(index).unwrap().text.clone();
                self.engine.buffer.clear();
                outcome.commits.push(text);
            }
            Effect::CommitRaw => {
                let raw = std::mem::take(&mut self.engine.buffer);
                if !raw.is_empty() {
                    outcome.commits.push(raw);
                }
            }
            Effect::RestoreBareQuestion(half_width) => {
                self.engine.buffer.clear();
                outcome
                    .commits
                    .push(if half_width { "?" } else { "？" }.to_owned());
            }
            Effect::ForgetCandidate(index) => {
                let text = self.host.session.candidate(index).unwrap().text.clone();
                self.host.notice = Some(format!("已删除「{text}」"));
            }
        }
    }

    fn run(&mut self, plan: Plan) -> Outcome {
        let Plan {
            effects,
            outcome: mut first,
            punctuate,
        } = plan;
        for effect in effects {
            self.perform(effect, &mut first);
        }
        match punctuate {
            Some(c) => {
                let follow = keys::punctuate_or_pass(self.engine.punctuate(c), c);
                let follow = self.run(follow);
                keys::then_follow(first, follow)
            }
            None => first,
        }
    }

    fn frame(&mut self, outcome: &Outcome) -> Option<Frame> {
        let composing = !self.engine.buffer.is_empty();
        match next_frame(outcome) {
            FrameRequest::Requery => Some(frame_after_change(
                &mut self.host,
                self.engine.query(),
                self.engine.typed(),
                composing,
            )),
            FrameRequest::Repaint => Some(frame_of(&self.host, composing)),
            FrameRequest::Keep => None,
        }
    }

    fn event(&mut self, key: Option<Key>, keycode: u32, state: u32) -> (Outcome, Option<Frame>) {
        let c = match key {
            Some(Key::Char(c)) => Some(c),
            _ => None,
        };
        let view = self.engine.view(c);
        let pressed = PressedKey {
            key,
            keycode,
            state: ModifierState::new_with_raw_value(state),
        };
        let plan = dispatch_inner(&mut self.host, pressed, &view);
        let outcome = self.run(plan);
        let frame = self.frame(&outcome);
        self.commits.extend(outcome.commits.iter().cloned());
        (outcome, frame)
    }

    fn tap(&mut self, c: char) -> bool {
        self.event(Some(Key::Char(c)), 0, 0).0.handled
    }

    fn command(&mut self, key: CommandKey) -> bool {
        self.event(Some(Key::Command(key)), 0, 0).0.handled
    }

    fn type_pinyin(&mut self, letters: &str) {
        for c in letters.chars() {
            assert!(self.tap(c), "拼音字母 {c} 应该被吃掉");
        }
    }

    fn committed(&self) -> String {
        self.commits.join("")
    }

    fn shift_digit(&mut self, digit: usize) -> (Outcome, Option<Frame>) {
        const SHIFTED: [char; 9] = ['!', '@', '#', '$', '%', '^', '&', '*', '('];
        self.event(Some(Key::Char(SHIFTED[digit - 1])), 9 + digit as u32, 1)
    }

    /// Shift + digit as gnome-shell's text-input path sends it: raw evdev keycode.
    fn shift_digit_evdev(&mut self, digit: usize) -> (Outcome, Option<Frame>) {
        const SHIFTED: [char; 9] = ['!', '@', '#', '$', '%', '^', '&', '*', '('];
        self.event(Some(Key::Char(SHIFTED[digit - 1])), 1 + digit as u32, 1)
    }

    fn ctrl_digit(&mut self, digit: usize) -> (Outcome, Option<Frame>) {
        self.event(
            Some(Key::Char(char::from(b'0' + digit as u8))),
            9 + digit as u32,
            1 << 2,
        )
    }

    fn position(&self, text: &str) -> Option<usize> {
        self.host
            .session
            .candidates()
            .iter()
            .position(|candidate| candidate.text == text)
    }
}

#[test]
fn typing_pinyin_and_space_commits_the_top_candidate() {
    let mut driver = Driver::new();
    for c in "kaifa".chars() {
        assert!(driver.tap(c), "拼音字母应该被吃掉: {c}");
    }
    assert!(
        driver.position("开发").is_some(),
        "kaifa 的候选里应该有 开发"
    );
    assert!(driver.tap(' '));
    assert_eq!(driver.committed(), "开发");
    assert!(driver.engine.buffer.is_empty());
}

#[test]
fn digits_pick_from_the_current_page() {
    let mut driver = Driver::new();
    driver.type_pinyin("kaifa");
    assert!(driver.tap('2'));
    assert!(!driver.committed().is_empty());
    assert_eq!(driver.committed(), "凯发");
}

#[test]
fn english_page_keys_redraw_without_requerying() {
    let mut driver = Driver::new();
    driver.engine.english = true;
    for c in "hell".chars() {
        driver.tap(c);
    }
    let (outcome, _) = driver.event(Some(Key::Char(']')), 0, 0);
    assert!(
        outcome.handled && outcome.redraw && !outcome.refresh,
        "英文模式翻页只重画不重查"
    );
}

#[test]
fn enter_commits_raw_punctuation_maps_full_width() {
    let mut driver = Driver::new();
    driver.type_pinyin("kaifa");
    assert!(driver.command(CommandKey::Enter));
    assert_eq!(driver.committed(), "kaifa");
    assert!(driver.tap(','));
    assert_eq!(driver.committed(), "kaifa，");
    assert!(!driver.tap('5'));
}

#[test]
fn escape_clears_and_backspace_edits() {
    let mut driver = Driver::new();
    driver.type_pinyin("kaifa");
    assert!(driver.command(CommandKey::Backspace));
    assert_eq!(driver.engine.buffer, "kaif");
    assert!(driver.command(CommandKey::Escape));
    assert!(driver.engine.buffer.is_empty());
}

#[test]
fn shift_letters_commit_raw_and_pass_through() {
    let mut driver = Driver::new();
    driver.tap('k');
    let handled = driver.tap('A');
    assert!(!handled);
    assert_eq!(driver.committed(), "k");
}

#[test]
fn question_mode_is_reachable_from_english_mode() {
    let mut driver = Driver::new();
    driver.engine.question_mark = true;
    driver.engine.english = true;
    assert!(driver.tap('?'));
    assert!(!driver.engine.english);
    assert!(driver.engine.question_mode());
    let (outcome, _) = driver.event(Some(Key::Command(CommandKey::Enter)), 0, 0);
    assert!(outcome.handled);
    assert_eq!(outcome.commits, vec!["？".to_owned()]);
}

#[test]
fn english_candidates_off_means_pure_passthrough() {
    let mut driver = Driver::new();
    driver.engine.english = true;
    driver.host.english_candidates = false;
    let (outcome, _) = driver.event(Some(Key::Char('g')), 0, 0);
    assert!(!outcome.handled);
    assert!(outcome.commits.is_empty());
    assert!(driver.engine.buffer.is_empty());
    let mut driver = Driver::new();
    driver.tap('k');
    driver.engine.english = true;
    driver.host.english_candidates = false;
    let (outcome, _) = driver.event(Some(Key::Char('g')), 0, 0);
    assert!(!outcome.handled);
    assert_eq!(outcome.commits, vec!["k".to_owned()]);
}

#[test]
fn shuangpin_mode_letter_takes_the_shifted_form() {
    let mut driver = Driver::new();
    driver.engine.shuangpin = true;
    let (outcome, _) = driver.event(Some(Key::Char('V')), 0, 1);
    assert!(outcome.handled);
    assert!(driver.engine.expression_mode(), "Shift+V 应进表达式模式");
    // A plain v is an ordinary letter under shuangpin: it does not start an expression.
    let mut driver = Driver::new();
    driver.engine.shuangpin = true;
    driver.tap('v');
    assert!(!driver.engine.expression_mode());
}

#[test]
fn switch_key_defaults_to_a_shift_tap() {
    let mut driver = Driver::new();
    let (outcome, _) = driver.event(Some(Key::Shift), 0, 0);
    assert!(!outcome.handled);
    let (outcome, _) = driver.event(Some(Key::Shift), 0, 1 << 30);
    assert!(!outcome.handled);
    assert!(driver.engine.english);
}

#[test]
fn intervening_key_breaks_the_tap() {
    let mut driver = Driver::new();
    driver.event(Some(Key::Shift), 0, 0);
    driver.event(Some(Key::Char('A')), 0, 1);
    driver.event(Some(Key::Shift), 0, 1 << 30);
    assert!(!driver.engine.english, "Shift+字母 不是单击");
}

#[test]
fn switch_mode_none_never_toggles() {
    let mut driver = Driver::new();
    driver.host.switch_key = SwitchKey::Off;
    driver.event(Some(Key::Shift), 0, 0);
    driver.event(Some(Key::Shift), 0, 1 << 30);
    assert!(!driver.engine.english);
}

#[test]
fn special_modifier_combo_commits_raw_then_passes_through() {
    let mut driver = Driver::new();
    driver.type_pinyin("kaifa");
    let (outcome, _) = driver.event(Some(Key::Command(CommandKey::Enter)), 0, 1 << 2);
    assert!(!outcome.handled, "应用快捷键组合必须放行");
    assert!(outcome.refresh);
    assert_eq!(outcome.commits, vec!["kaifa".to_owned()]);
}

#[test]
fn modifier_chords_are_not_taps_in_either_order() {
    let mut driver = Driver::new();
    for (key, state) in [
        (Some(Key::Shift), 0),
        (Some(Key::Control), 1 << 2),
        (Some(Key::Control), (1 << 2) | (1 << 30)),
        (Some(Key::Shift), 1 << 30),
    ] {
        driver.event(key, 0, state);
    }
    assert!(!driver.engine.english, "Shift+Ctrl 和弦不该切模式");
    let mut driver = Driver::new();
    driver.host.switch_key = SwitchKey::Control;
    for (key, state) in [
        (Some(Key::Control), 1 << 2),
        (Some(Key::Shift), (1 << 2) | 1),
        (Some(Key::Shift), (1 << 2) | (1 << 30)),
        (Some(Key::Control), (1 << 2) | (1 << 30)),
    ] {
        driver.event(key, 0, state);
    }
    assert!(!driver.engine.english, "按着 Shift 时抬 Ctrl 不算单击");
}

#[test]
fn shifted_tab_outside_composition_passes_through() {
    let mut driver = Driver::new();
    let (outcome, _) = driver.event(Some(Key::Command(CommandKey::Tab)), 0, 1);
    assert!(!outcome.handled, "组句外的 Shift+Tab 是应用的反向 Tab");
}

#[test]
fn page_keys_redraw_without_requerying_so_the_page_survives() {
    let mut driver = Driver::new();
    for c in "nihao".chars() {
        assert!(driver.tap(c));
    }
    assert!(
        driver.host.session.candidates().len() > driver.host.page_size,
        "样例要能翻页：候选得多于一页"
    );
    let (outcome, frame) = driver.event(Some(Key::Char(']')), 0, 0);
    assert!(
        outcome.handled && !outcome.refresh && outcome.redraw,
        "翻页只重画不重查"
    );
    let frame = frame.expect("翻页要重画一帧");
    assert!(frame.table_visible);
    assert_eq!(
        frame.table.cursor_pos(),
        driver.host.page_size,
        "翻页后高亮落到第二页第一格"
    );
    let (outcome, frame) = driver.event(Some(Key::Command(CommandKey::Tab)), 0, 1);
    assert!(outcome.handled && outcome.redraw && !outcome.refresh);
    assert_eq!(frame.expect("上一页也要重画").table.cursor_pos(), 0);
    assert_eq!(driver.engine.page_turns, 2);
}

#[test]
fn control_tap_toggles_when_configured() {
    let mut driver = Driver::new();
    driver.host.switch_key = SwitchKey::Control;
    driver.event(Some(Key::Control), 0, 1 << 2);
    driver.event(Some(Key::Control), 0, (1 << 2) | (1 << 30));
    assert!(driver.engine.english);
}

#[test]
fn shift_digit_forgets_candidate_requeries_and_shows_notice() {
    let mut driver = Driver::new();
    driver.type_pinyin("kaifa");
    let slot = driver.position("开发").expect("kaifa 的候选里应该有 开发");
    let (outcome, frame) = driver.shift_digit(slot + 1);
    assert!(outcome.handled && outcome.refresh && outcome.commits.is_empty());
    assert!(!driver.engine.buffer.is_empty(), "删候选不动组句");
    let notice = driver.host.notice.clone().expect("删候选后应有提示");
    assert!(notice.contains("开发"), "提示要提到候选词：{notice}");
    let frame = frame.expect("重查后要发一帧");
    assert!(frame.aux.contains(&notice), "提示随辅助行下发：{}", frame.aux);
    assert_eq!(frame.preedit, "kai'fa", "内联 preedit 不掺提示");
    let (outcome, frame) = driver.event(Some(Key::Char('n')), 0, 0);
    assert!(outcome.handled);
    assert!(driver.host.notice.is_none(), "提示只活到下一次按键");
    assert_eq!(
        frame.expect("改缓冲要重查发帧").aux,
        "kai'fan",
        "下一帧辅助行回到纯拼音"
    );
}

#[test]
fn shift_digit_with_evdev_keycodes_forgets_the_same_slot() {
    let mut driver = Driver::new();
    driver.type_pinyin("kaifa");
    let slot = driver.position("开发").expect("kaifa 的候选里应该有 开发");
    let (outcome, _) = driver.shift_digit_evdev(slot + 1);
    assert!(outcome.handled && outcome.refresh && outcome.commits.is_empty());
    let notice = driver.host.notice.clone().expect("删候选后应有提示");
    assert!(notice.contains("开发"), "提示要提到候选词：{notice}");
}

#[test]
fn evdev_nine_and_x_one_share_a_keycode() {
    let mut driver = Driver::new();
    driver.type_pinyin("kaifa");
    let count = driver.host.session.candidates().len();
    assert!(count < 9, "样例词库 kaifa 的候选应不足一页：{count}");
    // evdev 10 with `(` is digit 9: no candidate there, the key is swallowed.
    let (outcome, _) = driver.shift_digit_evdev(9);
    assert!(outcome.handled && !outcome.refresh && outcome.commits.is_empty());
    assert!(driver.host.notice.is_none());
    // X 10 with `!` is digit 1: the first candidate is forgotten.
    let first = driver.host.session.candidates()[0].text.clone();
    let (outcome, _) = driver.shift_digit(1);
    assert!(outcome.handled && outcome.refresh);
    let notice = driver.host.notice.clone().expect("删候选后应有提示");
    assert!(notice.contains(&first), "提示要提到第一个候选：{notice}");
}

#[test]
fn shift_digit_without_a_candidate_in_that_slot_is_swallowed() {
    let mut driver = Driver::new();
    driver.type_pinyin("kaifa");
    let count = driver.host.session.candidates().len();
    let digit = count + 1;
    assert!(digit <= 9, "样例词库 kaifa 的候选应不足一页：{count}");
    let (outcome, frame) = driver.shift_digit(digit);
    assert!(outcome.handled, "那格没有候选也要吞掉按键");
    assert!(!outcome.refresh && !outcome.redraw && outcome.commits.is_empty());
    assert!(frame.is_none(), "什么都不动就不发帧");
    assert!(driver.host.notice.is_none());
}

#[test]
fn swallowing_after_a_notice_retires_it_with_a_frame() {
    let mut driver = Driver::new();
    driver.type_pinyin("kaifa");
    let slot = driver.position("开发").expect("kaifa 的候选里应该有 开发");
    driver.shift_digit(slot + 1);
    assert!(driver.host.notice.is_some());
    let count = driver.host.session.candidates().len();
    let digit = count + 1;
    assert!(digit <= 9, "样例词库 kaifa 的候选应不足一页：{count}");
    let (outcome, frame) = driver.shift_digit(digit);
    assert!(outcome.handled && outcome.redraw && !outcome.refresh);
    let frame = frame.expect("刚清掉提示要补一帧");
    assert_eq!(frame.aux, "kai'fa", "提示随这一帧从辅助行消失");
    assert!(driver.host.notice.is_none());
}

#[test]
fn altgr_shift_digit_is_not_a_delete_chord() {
    let mut driver = Driver::new();
    driver.type_pinyin("kaifa");
    let (outcome, _) = driver.event(Some(Key::Char('!')), 10, (1 << 0) | (1 << 7));
    assert!(outcome.handled && outcome.refresh);
    assert!(driver.engine.buffer.contains('!'));
    assert!(driver.host.notice.is_none());
}

#[test]
fn shift_digit_outside_composition_is_full_width_punctuation() {
    let mut driver = Driver::new();
    let (outcome, _) = driver.shift_digit(1);
    assert!(outcome.handled);
    assert_eq!(outcome.commits, vec!["！".to_owned()]);
    assert!(driver.host.notice.is_none());
}

#[test]
fn shift_digit_in_expression_mode_is_an_operator_not_a_shortcut() {
    let mut driver = Driver::new();
    driver.type_pinyin("v2");
    assert!(driver.engine.expression_mode());
    let (outcome, _) = driver.shift_digit(8);
    assert!(outcome.handled, "* 是表达式字符，照常进缓冲");
    assert!(driver.host.notice.is_none(), "表达式模式不截修饰键 + 数字");
    assert!(driver.engine.expression_mode(), "表达式模式不被打断");
    assert_eq!(driver.engine.buffer, "v2*");
}

#[test]
fn configured_chord_intercepts_and_unmatched_shift_falls_through() {
    let mut driver = Driver::new();
    driver.host.delete_keys = Modifiers::control_only();
    driver.type_pinyin("kaifa");
    let (outcome, _) = driver.shift_digit(2);
    assert!(outcome.handled && outcome.refresh, "Shift+2 走普通字符分支");
    assert!(driver.engine.buffer.contains('@'), "组句中 Shift+2 是直输段 @");
    assert!(driver.host.notice.is_none());
    // The `@` made the buffer a raw segment without candidates; start over.
    let mut driver = Driver::new();
    driver.host.delete_keys = Modifiers::control_only();
    driver.type_pinyin("kaifa");
    let (outcome, _) = driver.ctrl_digit(1);
    assert!(outcome.handled && outcome.refresh && outcome.commits.is_empty());
    assert!(driver.host.notice.is_some(), "配到的 Ctrl+数字删候选");
}

#[test]
fn shift_digit_does_not_toggle_english_mode() {
    let mut driver = Driver::new();
    driver.type_pinyin("kaifa");
    driver.event(Some(Key::Shift), 0, 0);
    let (outcome, _) = driver.shift_digit(1);
    assert!(outcome.handled);
    driver.event(Some(Key::Char('!')), 10, 1 | (1 << 30));
    driver.event(Some(Key::Shift), 0, 1 << 30);
    assert!(!driver.engine.english, "Shift+数字不是切换键单击");
}

#[test]
fn shift_tap_while_composing_commits_the_pinyin_and_switches() {
    let mut driver = Driver::new();
    driver.type_pinyin("kai");
    driver.event(Some(Key::Shift), 0, 0);
    let (outcome, _) = driver.event(Some(Key::Shift), 0, 1 << 30);
    assert_eq!(outcome.commits, vec!["kai".to_owned()]);
    assert!(driver.engine.english);
    driver.event(Some(Key::Shift), 0, 0);
    driver.event(Some(Key::Shift), 0, 1 << 30);
    assert!(!driver.engine.english, "再点一次切回中文");
}

#[test]
fn english_mode_disabled_keeps_chinese() {
    let mut config = config();
    config.english_mode = false;
    let mut driver = Driver::with_config(config);
    driver.event(Some(Key::Shift), 0, 0);
    driver.event(Some(Key::Shift), 0, 1 << 30);
    assert!(!driver.engine.english);
}

#[test]
fn ctrl_space_switch_mode_means_no_switch() {
    let mut config = config();
    config.switch_mode = SwitchKey::CtrlSpace;
    let driver = Driver::with_config(config);
    assert_eq!(driver.host.switch_key, SwitchKey::Off);
}

#[test]
fn caps_lock_passes_characters_through() {
    let mut driver = Driver::new();
    driver.type_pinyin("ni");
    let (outcome, _) = driver.event(Some(Key::Char('H')), 0, 1 << 1);
    assert!(!outcome.handled);
    assert_eq!(outcome.commits, vec!["ni".to_owned()]);
    assert_eq!(driver.engine.passthrough, vec!['H']);
}

#[test]
fn unknown_keys_are_eaten_only_while_composing() {
    let mut driver = Driver::new();
    assert!(!driver.event(None, 0, 0).0.handled);
    driver.type_pinyin("ni");
    assert!(driver.event(None, 0, 0).0.handled);
    assert_eq!(driver.engine.buffer, "ni");
}

#[test]
fn arrows_move_the_highlight_and_enter_keeps_raw() {
    let mut driver = Driver::new();
    driver.type_pinyin("ni");
    let (outcome, frame) = driver.event(Some(Key::Command(CommandKey::Down)), 0, 0);
    assert!(outcome.handled && outcome.redraw && !outcome.refresh);
    assert_eq!(frame.unwrap().table.cursor_pos(), 1);
    assert!(driver.tap(' '));
    assert_eq!(driver.committed(), "尼");
}

#[test]
fn other_punctuation_commits_the_highlighted_candidate_first() {
    let mut driver = Driver::new();
    driver.type_pinyin("ni");
    // `.` goes into the buffer as a raw segment; `?` (no raw-segment punctuation in
    // question-free Chinese) is ascii punctuation too, so take a non-ASCII key instead.
    let (outcome, _) = driver.event(Some(Key::Char('。')), 0, 0);
    assert_eq!(outcome.commits, vec!["你".to_owned()]);
    assert!(!outcome.handled, "转不了全角的键交给应用");
    assert!(outcome.refresh);
}
