use vstd::prelude::*;

verus! {

/// The two emoji scales shown on the rating keyboards: one per importance
/// step and one per evaluation step, both indexed by the rating value 0..=4.
pub struct Emojis;

impl Emojis {
    pub const IMPORTANCE_0: &'static str = " 0️";

    pub const IMPORTANCE_1: &'static str = "✔️";

    pub const IMPORTANCE_2: &'static str = "❗";

    pub const IMPORTANCE_3: &'static str = "‼️";

    pub const IMPORTANCE_4: &'static str = "️🔥";

    pub const EVALUATION_0: &'static str = "😡";

    pub const EVALUATION_1: &'static str = "🙁";

    pub const EVALUATION_2: &'static str = "😐";

    pub const EVALUATION_3: &'static str = "😊";

    pub const EVALUATION_4: &'static str = "️😀";
}

/// The emoji shown for rating value `i` on the axis selected by the wire
/// discriminant `typ`: the importance scale for 1, the evaluation scale
/// otherwise.
pub open spec fn spec_emoji(typ: u8, i: int) -> Seq<char> {
    if typ == 1 {
        if i == 0 {
            Emojis::IMPORTANCE_0@
        } else if i == 1 {
            Emojis::IMPORTANCE_1@
        } else if i == 2 {
            Emojis::IMPORTANCE_2@
        } else if i == 3 {
            Emojis::IMPORTANCE_3@
        } else {
            Emojis::IMPORTANCE_4@
        }
    } else {
        if i == 0 {
            Emojis::EVALUATION_0@
        } else if i == 1 {
            Emojis::EVALUATION_1@
        } else if i == 2 {
            Emojis::EVALUATION_2@
        } else if i == 3 {
            Emojis::EVALUATION_3@
        } else {
            Emojis::EVALUATION_4@
        }
    }
}

/// Selects the emoji for rating value `i` on the axis named by `typ`.
pub fn emoji(typ: u8, i: u8) -> (r: &'static str)
    requires
        i < 5,
    ensures
        r@ == spec_emoji(typ, i as int),
{
    if typ == 1 {
        if i == 0 {
            Emojis::IMPORTANCE_0
        } else if i == 1 {
            Emojis::IMPORTANCE_1
        } else if i == 2 {
            Emojis::IMPORTANCE_2
        } else if i == 3 {
            Emojis::IMPORTANCE_3
        } else {
            Emojis::IMPORTANCE_4
        }
    } else {
        if i == 0 {
            Emojis::EVALUATION_0
        } else if i == 1 {
            Emojis::EVALUATION_1
        } else if i == 2 {
            Emojis::EVALUATION_2
        } else if i == 3 {
            Emojis::EVALUATION_3
        } else {
            Emojis::EVALUATION_4
        }
    }
}

/// The store keys outside the per-session and per-participant records.
pub struct RedisKeys;

impl RedisKeys {
    pub const PACKS: &'static str = "packs";

    pub const LATEST_MESSAGE: &'static str = "latest_message";
}

/// The user-visible message texts.
pub struct Messages;

impl Messages {
    pub const WELCOME: &'static str = "👋Привет! Рад видеть тебя.\nНажми \"Создать\", чтобы выбрать набор вопросов и запустить комнату.\nНажми \"Вступить\", чтобы вставить получанный от партнера ID комнаты и начать общение.\n";

    pub const WAITING_FOR_PARTNER: &'static str = "Ждем, пока партнер зайдет в комнату.";

    pub const WAITING_FOR_PARTNER_EVAL: &'static str = "Ожидание оценок партнера";

    pub const INSERT_ROOM_ID: &'static str = "Введи ID комнаты";

    pub const NO_ROOM_ID_IN_MESSAGE: &'static str = "Не могу найти ID в тексте сообщения.";

    pub const WRONG_ROOM_ID: &'static str = "Неверный ID комнаты, попробуй еще.";

    pub const CHOOSE_PACK: &'static str = "Выбери набор";

    pub const READY_FOR_NEXT: &'static str = "Скажи, когда будешь готов продолжить";

    pub const EVALUATING_RESULTS: &'static str = "Это был последний вопрос! Подожди, пока подвожу итоги...";

    pub const WAIT_A_MOMENT: &'static str = "Подожди минутку...";

    pub const ANSWER_IMPORTANCE: &'static str = "Насколько тебе важен ответ?";

    pub const ANSWER_EVALUATION: &'static str = "Как тебе ответ партнера?";

    pub const HELP: &'static str = "Бот, который присылает вопросы для обсуждения.\n\nНажми \"Создать\", чтобы выбрать набор вопросов и запустить комнату. Бот пришлет ID комнаты: его нужно отправить партнеру.\nНажми \"Вступить\", чтобы вставить получанный от партнера ID комнаты и начать общение.\n\nБот будет присылать вопросы для обсуждения по одному. Общайтесь, оценивайте важность ответа партнера и то, насколько ответ понравился.\nКогда будут оценены все вопросы, бот пришлет маленький отчет, в котором расскажет, как вы оценили друг друга.\n";

    pub const ERROR: &'static str = "Ошибка, попробуй ещё.";

    pub const ERROR_PACK_DOES_NOT_EXIST: &'static str = "Такого набора не существует, попробуй выбрать кнопкой.";

    pub const ERROR_INTERNAL: &'static str = "Ошибка бота, попробуй ещё раз немного позже.";

    pub const ERROR_UNKNOWN_COMMAND: &'static str = "Неизвестная команда бота. Попробуй выбрать из предложенного списка.";
}

/// The reply-keyboard button labels.
pub struct Keys;

impl Keys {
    pub const CREATE: &'static str = "🧩Сoздать";

    pub const JOIN: &'static str = "🎟Вступить";

    pub const READY: &'static str = "Готов!";

    /// The welcome keyboard: one row holding the create and join buttons.
    pub fn welcome() -> (r: Vec<Vec<String>>)
        ensures
            r@.len() == 1,
            r@[0]@.len() == 2,
            r@[0]@[0]@ == Keys::CREATE@,
            r@[0]@[1]@ == Keys::JOIN@,
    {
        let mut row: Vec<String> = Vec::new();
        row.push(String::from_str(Keys::CREATE));
        row.push(String::from_str(Keys::JOIN));
        let mut r: Vec<Vec<String>> = Vec::new();
        r.push(row);
        r
    }
}

} // verus!
