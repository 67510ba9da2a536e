//! The label tables: one text for each language and each title.
//!
//! Each language has its table twice, as the specification and as the code
//! that hands the text out; [`lookup`] is proved to agree with [`text`].

use crate::text_lib::{Language, Titles};
use vstd::prelude::*;

verus! {

/// The labels for English, United States.
pub open spec fn english_text(key: Titles) -> Seq<char> {
    match key {
        Titles::Header => "Pirate sands Timer"@,
        Titles::Subheader => "⌛ Working hours ⌛"@,
        Titles::Slider => "MINUTES"@,
        Titles::SoundNotification => "Sound notification"@,
        Titles::StartButton => "▶ Start"@,
        Titles::AddMinutes => "➕ one minute"@,
        Titles::Help => "Press S: Start/Pause, A: +1m, R: Reset, Q: Quit"@,
        Titles::TimerRunning => "Time is passing, FULL FOCUS."@,
        Titles::TimerPaused => "Pause, you need to take a break"@,
        Titles::TimerStopped => "The timer is not running"@,
    }
}

/// Looks up [`english_text`].
fn english(key: Titles) -> (s: &'static str)
    ensures
        s@ == english_text(key),
{
    match key {
        Titles::Header => "Pirate sands Timer",
        Titles::Subheader => "⌛ Working hours ⌛",
        Titles::Slider => "MINUTES",
        Titles::SoundNotification => "Sound notification",
        Titles::StartButton => "▶ Start",
        Titles::AddMinutes => "➕ one minute",
        Titles::Help => "Press S: Start/Pause, A: +1m, R: Reset, Q: Quit",
        Titles::TimerRunning => "Time is passing, FULL FOCUS.",
        Titles::TimerPaused => "Pause, you need to take a break",
        Titles::TimerStopped => "The timer is not running",
    }
}

/// The labels for Russian.
pub open spec fn russian_text(key: Titles) -> Seq<char> {
    match key {
        Titles::Header => "Пиратский таймер"@,
        Titles::Subheader => "⌛ Рабочее время ⌛"@,
        Titles::Slider => "МИНУТЫ"@,
        Titles::SoundNotification => "Звуковое уведомление"@,
        Titles::StartButton => "▶ Старт"@,
        Titles::AddMinutes => "➕ одна минута"@,
        Titles::Help => "Нажмите S: Старт/Пауза, A: +1 мин, R: Сброс, Q: Выход"@,
        Titles::TimerRunning => "Время идёт, ПОЛНАЯ КОНЦЕНТРАЦИЯ."@,
        Titles::TimerPaused => "Пауза, нужно сделать перерыв"@,
        Titles::TimerStopped => "Таймер не запущен"@,
    }
}

/// Looks up [`russian_text`].
fn russian(key: Titles) -> (s: &'static str)
    ensures
        s@ == russian_text(key),
{
    match key {
        Titles::Header => "Пиратский таймер",
        Titles::Subheader => "⌛ Рабочее время ⌛",
        Titles::Slider => "МИНУТЫ",
        Titles::SoundNotification => "Звуковое уведомление",
        Titles::StartButton => "▶ Старт",
        Titles::AddMinutes => "➕ одна минута",
        Titles::Help => "Нажмите S: Старт/Пауза, A: +1 мин, R: Сброс, Q: Выход",
        Titles::TimerRunning => "Время идёт, ПОЛНАЯ КОНЦЕНТРАЦИЯ.",
        Titles::TimerPaused => "Пауза, нужно сделать перерыв",
        Titles::TimerStopped => "Таймер не запущен",
    }
}

/// The labels for Chinese, simplified script.
pub open spec fn chinese_simplified_text(key: Titles) -> Seq<char> {
    match key {
        Titles::Header => "海盗沙地计时器"@,
        Titles::Subheader => "⌛ 工作时间 ⌛"@,
        Titles::Slider => "分钟"@,
        Titles::SoundNotification => "声音通知"@,
        Titles::StartButton => "▶ 开始"@,
        Titles::AddMinutes => "➕ 一分钟"@,
        Titles::Help => "按 S：开始/暂停，A：+1 分钟，R：重置，Q：退出"@,
        Titles::TimerRunning => "时间流逝，全神贯注。"@,
        Titles::TimerPaused => "暂停，你需要休息一下"@,
        Titles::TimerStopped => "计时器未运行"@,
    }
}

/// Looks up [`chinese_simplified_text`].
fn chinese_simplified(key: Titles) -> (s: &'static str)
    ensures
        s@ == chinese_simplified_text(key),
{
    match key {
        Titles::Header => "海盗沙地计时器",
        Titles::Subheader => "⌛ 工作时间 ⌛",
        Titles::Slider => "分钟",
        Titles::SoundNotification => "声音通知",
        Titles::StartButton => "▶ 开始",
        Titles::AddMinutes => "➕ 一分钟",
        Titles::Help => "按 S：开始/暂停，A：+1 分钟，R：重置，Q：退出",
        Titles::TimerRunning => "时间流逝，全神贯注。",
        Titles::TimerPaused => "暂停，你需要休息一下",
        Titles::TimerStopped => "计时器未运行",
    }
}

/// The labels for Chinese, traditional script.
pub open spec fn chinese_traditional_text(key: Titles) -> Seq<char> {
    match key {
        Titles::Header => "海盜沙地計時器"@,
        Titles::Subheader => "⌛ 工作時間 ⌛"@,
        Titles::Slider => "分鐘"@,
        Titles::SoundNotification => "聲音通知"@,
        Titles::StartButton => "▶ 開始"@,
        Titles::AddMinutes => "➕ 一分鐘"@,
        Titles::Help => "按 S：開始/暫停，A：+1 分鐘，R：重置，Q：退出"@,
        Titles::TimerRunning => "時間流逝，全神貫注。"@,
        Titles::TimerPaused => "暫停，你需要休息一下"@,
        Titles::TimerStopped => "計時器未運行"@,
    }
}

/// Looks up [`chinese_traditional_text`].
fn chinese_traditional(key: Titles) -> (s: &'static str)
    ensures
        s@ == chinese_traditional_text(key),
{
    match key {
        Titles::Header => "海盜沙地計時器",
        Titles::Subheader => "⌛ 工作時間 ⌛",
        Titles::Slider => "分鐘",
        Titles::SoundNotification => "聲音通知",
        Titles::StartButton => "▶ 開始",
        Titles::AddMinutes => "➕ 一分鐘",
        Titles::Help => "按 S：開始/暫停，A：+1 分鐘，R：重置，Q：退出",
        Titles::TimerRunning => "時間流逝，全神貫注。",
        Titles::TimerPaused => "暫停，你需要休息一下",
        Titles::TimerStopped => "計時器未運行",
    }
}

/// The labels for Spanish.
pub open spec fn spanish_text(key: Titles) -> Seq<char> {
    match key {
        Titles::Header => "Temporizador de arena pirata"@,
        Titles::Subheader => "⌛ Horario laboral ⌛"@,
        Titles::Slider => "MINUTOS"@,
        Titles::SoundNotification => "Notificación sonora"@,
        Titles::StartButton => "▶ Iniciar"@,
        Titles::AddMinutes => "➕ un minuto"@,
        Titles::Help => "Presiona S: Iniciar/Pausar, A: +1 min, R: Reiniciar, Q: Salir"@,
        Titles::TimerRunning => "El tiempo pasa, CONCENTRACIÓN TOTAL."@,
        Titles::TimerPaused => "Pausa, necesitas tomar un descanso"@,
        Titles::TimerStopped => "El temporizador no está en funcionamiento"@,
    }
}

/// Looks up [`spanish_text`].
fn spanish(key: Titles) -> (s: &'static str)
    ensures
        s@ == spanish_text(key),
{
    match key {
        Titles::Header => "Temporizador de arena pirata",
        Titles::Subheader => "⌛ Horario laboral ⌛",
        Titles::Slider => "MINUTOS",
        Titles::SoundNotification => "Notificación sonora",
        Titles::StartButton => "▶ Iniciar",
        Titles::AddMinutes => "➕ un minuto",
        Titles::Help => "Presiona S: Iniciar/Pausar, A: +1 min, R: Reiniciar, Q: Salir",
        Titles::TimerRunning => "El tiempo pasa, CONCENTRACIÓN TOTAL.",
        Titles::TimerPaused => "Pausa, necesitas tomar un descanso",
        Titles::TimerStopped => "El temporizador no está en funcionamiento",
    }
}

/// The labels for French.
pub open spec fn french_text(key: Titles) -> Seq<char> {
    match key {
        Titles::Header => "Chronomètre des sables pirates"@,
        Titles::Subheader => "⌛ Heures de travail ⌛"@,
        Titles::Slider => "MINUTES"@,
        Titles::SoundNotification => "Notification sonore"@,
        Titles::StartButton => "▶ Démarrer"@,
        Titles::AddMinutes => "➕ une minute"@,
        Titles::Help => "Appuyez sur S : Démarrer/Pause, A : +1 min, R : Réinitialiser, Q : Quitter"@,
        Titles::TimerRunning => "Le temps passe, CONCENTRATION MAXIMALE."@,
        Titles::TimerPaused => "Pause, vous devez faire une pause"@,
        Titles::TimerStopped => "Le chronomètre ne fonctionne pas"@,
    }
}

/// Looks up [`french_text`].
fn french(key: Titles) -> (s: &'static str)
    ensures
        s@ == french_text(key),
{
    match key {
        Titles::Header => "Chronomètre des sables pirates",
        Titles::Subheader => "⌛ Heures de travail ⌛",
        Titles::Slider => "MINUTES",
        Titles::SoundNotification => "Notification sonore",
        Titles::StartButton => "▶ Démarrer",
        Titles::AddMinutes => "➕ une minute",
        Titles::Help => "Appuyez sur S : Démarrer/Pause, A : +1 min, R : Réinitialiser, Q : Quitter",
        Titles::TimerRunning => "Le temps passe, CONCENTRATION MAXIMALE.",
        Titles::TimerPaused => "Pause, vous devez faire une pause",
        Titles::TimerStopped => "Le chronomètre ne fonctionne pas",
    }
}

/// The labels for German.
pub open spec fn german_text(key: Titles) -> Seq<char> {
    match key {
        Titles::Header => "Piratensanduhr-Zeitgeber"@,
        Titles::Subheader => "⌛ Arbeitszeit ⌛"@,
        Titles::Slider => "MINUTEN"@,
        Titles::SoundNotification => "Tonbenachrichtigung"@,
        Titles::StartButton => "▶ Start"@,
        Titles::AddMinutes => "➕ eine Minute"@,
        Titles::Help => "Drücke S: Start/Pause, A: +1 Min, R: Zurücksetzen, Q: Beenden"@,
        Titles::TimerRunning => "Die Zeit vergeht, VOLLE KONZENTRATION."@,
        Titles::TimerPaused => "Pause, du brauchst eine Pause"@,
        Titles::TimerStopped => "Der Timer läuft nicht"@,
    }
}

/// Looks up [`german_text`].
fn german(key: Titles) -> (s: &'static str)
    ensures
        s@ == german_text(key),
{
    match key {
        Titles::Header => "Piratensanduhr-Zeitgeber",
        Titles::Subheader => "⌛ Arbeitszeit ⌛",
        Titles::Slider => "MINUTEN",
        Titles::SoundNotification => "Tonbenachrichtigung",
        Titles::StartButton => "▶ Start",
        Titles::AddMinutes => "➕ eine Minute",
        Titles::Help => "Drücke S: Start/Pause, A: +1 Min, R: Zurücksetzen, Q: Beenden",
        Titles::TimerRunning => "Die Zeit vergeht, VOLLE KONZENTRATION.",
        Titles::TimerPaused => "Pause, du brauchst eine Pause",
        Titles::TimerStopped => "Der Timer läuft nicht",
    }
}

/// The labels for Japanese.
pub open spec fn japanese_text(key: Titles) -> Seq<char> {
    match key {
        Titles::Header => "海賊の砂時計タイマー"@,
        Titles::Subheader => "⌛ 勤務時間 ⌛"@,
        Titles::Slider => "分"@,
        Titles::SoundNotification => "サウンド通知"@,
        Titles::StartButton => "▶ 開始"@,
        Titles::AddMinutes => "➕ 1分追加"@,
        Titles::Help => "S: 開始/一時停止、A: +1分、R: リセット、Q: 終了"@,
        Titles::TimerRunning => "時間が経過中、全力集中。"@,
        Titles::TimerPaused => "一時停止、休憩が必要です"@,
        Titles::TimerStopped => "タイマーは動作していません"@,
    }
}

/// Looks up [`japanese_text`].
fn japanese(key: Titles) -> (s: &'static str)
    ensures
        s@ == japanese_text(key),
{
    match key {
        Titles::Header => "海賊の砂時計タイマー",
        Titles::Subheader => "⌛ 勤務時間 ⌛",
        Titles::Slider => "分",
        Titles::SoundNotification => "サウンド通知",
        Titles::StartButton => "▶ 開始",
        Titles::AddMinutes => "➕ 1分追加",
        Titles::Help => "S: 開始/一時停止、A: +1分、R: リセット、Q: 終了",
        Titles::TimerRunning => "時間が経過中、全力集中。",
        Titles::TimerPaused => "一時停止、休憩が必要です",
        Titles::TimerStopped => "タイマーは動作していません",
    }
}

/// The labels for Korean.
pub open spec fn korean_text(key: Titles) -> Seq<char> {
    match key {
        Titles::Header => "해적 모래 시계 타이머"@,
        Titles::Subheader => "⌛ 근무 시간 ⌛"@,
        Titles::Slider => "분"@,
        Titles::SoundNotification => "소리 알림"@,
        Titles::StartButton => "▶ 시작"@,
        Titles::AddMinutes => "➕ 1분 추가"@,
        Titles::Help => "S: 시작/일시정지, A: +1분, R: 재설정, Q: 종료"@,
        Titles::TimerRunning => "시간이 흐르는 중, 완전 집중."@,
        Titles::TimerPaused => "일시 중지, 휴식이 필요합니다"@,
        Titles::TimerStopped => "타이머가 실행 중이 아닙니다"@,
    }
}

/// Looks up [`korean_text`].
fn korean(key: Titles) -> (s: &'static str)
    ensures
        s@ == korean_text(key),
{
    match key {
        Titles::Header => "해적 모래 시계 타이머",
        Titles::Subheader => "⌛ 근무 시간 ⌛",
        Titles::Slider => "분",
        Titles::SoundNotification => "소리 알림",
        Titles::StartButton => "▶ 시작",
        Titles::AddMinutes => "➕ 1분 추가",
        Titles::Help => "S: 시작/일시정지, A: +1분, R: 재설정, Q: 종료",
        Titles::TimerRunning => "시간이 흐르는 중, 완전 집중.",
        Titles::TimerPaused => "일시 중지, 휴식이 필요합니다",
        Titles::TimerStopped => "타이머가 실행 중이 아닙니다",
    }
}

/// The labels for Portuguese, Brazil.
pub open spec fn portuguese_text(key: Titles) -> Seq<char> {
    match key {
        Titles::Header => "Cronômetro de areia pirata"@,
        Titles::Subheader => "⌛ Horário de trabalho ⌛"@,
        Titles::Slider => "MINUTOS"@,
        Titles::SoundNotification => "Notificação sonora"@,
        Titles::StartButton => "▶ Iniciar"@,
        Titles::AddMinutes => "➕ um minuto"@,
        Titles::Help => "Pressione S: Iniciar/Pausar, A: +1 min, R: Reiniciar, Q: Sair"@,
        Titles::TimerRunning => "O tempo está passando, FOCO TOTAL."@,
        Titles::TimerPaused => "Pausa, você precisa descansar"@,
        Titles::TimerStopped => "O cronômetro não está rodando"@,
    }
}

/// Looks up [`portuguese_text`].
fn portuguese(key: Titles) -> (s: &'static str)
    ensures
        s@ == portuguese_text(key),
{
    match key {
        Titles::Header => "Cronômetro de areia pirata",
        Titles::Subheader => "⌛ Horário de trabalho ⌛",
        Titles::Slider => "MINUTOS",
        Titles::SoundNotification => "Notificação sonora",
        Titles::StartButton => "▶ Iniciar",
        Titles::AddMinutes => "➕ um minuto",
        Titles::Help => "Pressione S: Iniciar/Pausar, A: +1 min, R: Reiniciar, Q: Sair",
        Titles::TimerRunning => "O tempo está passando, FOCO TOTAL.",
        Titles::TimerPaused => "Pausa, você precisa descansar",
        Titles::TimerStopped => "O cronômetro não está rodando",
    }
}

/// The labels for any other locale.
pub open spec fn fallback_text(key: Titles) -> Seq<char> {
    match key {
        Titles::Header => "Pirate sands Timer"@,
        Titles::Subheader => "⌛ Working hours ⌛"@,
        Titles::Slider => "MINUTES"@,
        Titles::SoundNotification => "Sound notification"@,
        Titles::StartButton => "▶ Start"@,
        Titles::AddMinutes => "➕ +1 min"@,
        Titles::Help => "Press S: Start/Pause, A: +1m, R: Reset, Q: Quit"@,
        Titles::TimerRunning => "Time is passing, FULL FOCUS."@,
        Titles::TimerPaused => "Pause, you need to take a break"@,
        Titles::TimerStopped => "The timer is not running"@,
    }
}

/// Looks up [`fallback_text`].
fn fallback(key: Titles) -> (s: &'static str)
    ensures
        s@ == fallback_text(key),
{
    match key {
        Titles::Header => "Pirate sands Timer",
        Titles::Subheader => "⌛ Working hours ⌛",
        Titles::Slider => "MINUTES",
        Titles::SoundNotification => "Sound notification",
        Titles::StartButton => "▶ Start",
        Titles::AddMinutes => "➕ +1 min",
        Titles::Help => "Press S: Start/Pause, A: +1m, R: Reset, Q: Quit",
        Titles::TimerRunning => "Time is passing, FULL FOCUS.",
        Titles::TimerPaused => "Pause, you need to take a break",
        Titles::TimerStopped => "The timer is not running",
    }
}

/// The text of `key` in `lang`.
pub open spec fn text(lang: Language, key: Titles) -> Seq<char> {
    match lang {
        Language::EnglishUS => english_text(key),
        Language::Russian => russian_text(key),
        Language::ChineseSimplified => chinese_simplified_text(key),
        Language::ChineseTraditional => chinese_traditional_text(key),
        Language::Spanish => spanish_text(key),
        Language::French => french_text(key),
        Language::German => german_text(key),
        Language::Japanese => japanese_text(key),
        Language::Korean => korean_text(key),
        Language::Portuguese => portuguese_text(key),
        Language::Other => fallback_text(key),
    }
}

/// Hands out the text of `key` in `lang`.
pub fn lookup(lang: Language, key: Titles) -> (s: &'static str)
    ensures
        s@ == text(lang, key),
{
    match lang {
        Language::EnglishUS => english(key),
        Language::Russian => russian(key),
        Language::ChineseSimplified => chinese_simplified(key),
        Language::ChineseTraditional => chinese_traditional(key),
        Language::Spanish => spanish(key),
        Language::French => french(key),
        Language::German => german(key),
        Language::Japanese => japanese(key),
        Language::Korean => korean(key),
        Language::Portuguese => portuguese(key),
        Language::Other => fallback(key),
    }
}

/// The fallback table is the English one but for the label of the button
/// that adds a minute.
pub proof fn lemma_fallback_is_english(key: Titles)
    requires
        key != Titles::AddMinutes,
    ensures
        text(Language::Other, key) == text(Language::EnglishUS, key),
{
}

} // verus!
