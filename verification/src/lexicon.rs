//! The lexicon: fixed word lists and suffix sets for each linguistic
//! category, with one membership predicate per category.
//!
//! The lists are calibration data of this crate. Each category has a spec
//! predicate over a character sequence and an executable check that is
//! proved to agree with it. Words are looked up in lowercase form.

use vstd::prelude::*;

use crate::text::ends_with_str;
use crate::text::str_eq;
use crate::text::str_ends_with;
use crate::text::utf8_len;
use crate::text::utf8_len_gt;

verus! {

/// Prepositions.
pub open spec fn in_prepositions(w: Seq<char>) -> bool {
    w == "в"@ || w == "во"@ || w == "на"@ || w == "за"@ || w == "к"@ || w == "ко"@ || w == "с"@
        || w == "со"@ || w == "у"@ || w == "о"@ || w == "об"@ || w == "обо"@ || w == "от"@
        || w == "ото"@ || w == "до"@ || w == "по"@ || w == "под"@ || w == "подо"@ || w == "над"@
        || w == "надо"@ || w == "при"@ || w == "про"@ || w == "без"@ || w == "безо"@ || w == "для"@
        || w == "из"@ || w == "изо"@ || w == "через"@ || w == "между"@ || w == "перед"@
        || w == "передо"@ || w == "около"@ || w == "вокруг"@ || w == "после"@ || w == "среди"@
        || w == "ради"@ || w == "сквозь"@ || w == "вдоль"@ || w == "возле"@ || w == "мимо"@
        || w == "напротив"@ || w == "кроме"@
}

pub fn check_prepositions(w: &str) -> (r: bool)
    ensures
        r == in_prepositions(w@),
{
    str_eq(w, "в") || str_eq(w, "во") || str_eq(w, "на") || str_eq(w, "за") || str_eq(w, "к")
        || str_eq(w, "ко") || str_eq(w, "с") || str_eq(w, "со") || str_eq(w, "у") || str_eq(w, "о")
        || str_eq(w, "об") || str_eq(w, "обо") || str_eq(w, "от") || str_eq(w, "ото")
        || str_eq(w, "до") || str_eq(w, "по") || str_eq(w, "под") || str_eq(w, "подо")
        || str_eq(w, "над") || str_eq(w, "надо") || str_eq(w, "при") || str_eq(w, "про")
        || str_eq(w, "без") || str_eq(w, "безо") || str_eq(w, "для") || str_eq(w, "из")
        || str_eq(w, "изо") || str_eq(w, "через") || str_eq(w, "между") || str_eq(w, "перед")
        || str_eq(w, "передо") || str_eq(w, "около") || str_eq(w, "вокруг") || str_eq(w, "после")
        || str_eq(w, "среди") || str_eq(w, "ради") || str_eq(w, "сквозь") || str_eq(w, "вдоль")
        || str_eq(w, "возле") || str_eq(w, "мимо") || str_eq(w, "напротив") || str_eq(w, "кроме")
}

/// Coordinating conjunctions.
pub open spec fn in_coordinating_conjunctions(w: Seq<char>) -> bool {
    w == "и"@ || w == "а"@ || w == "но"@ || w == "да"@ || w == "или"@ || w == "либо"@
        || w == "однако"@ || w == "зато"@
}

pub fn check_coordinating_conjunctions(w: &str) -> (r: bool)
    ensures
        r == in_coordinating_conjunctions(w@),
{
    str_eq(w, "и") || str_eq(w, "а") || str_eq(w, "но") || str_eq(w, "да") || str_eq(w, "или")
        || str_eq(w, "либо") || str_eq(w, "однако") || str_eq(w, "зато")
}

/// Subordinating conjunctions.
pub open spec fn in_subordinating_conjunctions(w: Seq<char>) -> bool {
    w == "что"@ || w == "чтобы"@ || w == "чтоб"@ || w == "как"@ || w == "когда"@ || w == "пока"@
        || w == "если"@ || w == "поскольку"@ || w == "потому"@ || w == "оттого"@ || w == "хотя"@
        || w == "хоть"@ || w == "будто"@ || w == "словно"@ || w == "ибо"@ || w == "едва"@
        || w == "лишь"@ || w == "раз"@
}

pub fn check_subordinating_conjunctions(w: &str) -> (r: bool)
    ensures
        r == in_subordinating_conjunctions(w@),
{
    str_eq(w, "что") || str_eq(w, "чтобы") || str_eq(w, "чтоб") || str_eq(w, "как")
        || str_eq(w, "когда") || str_eq(w, "пока") || str_eq(w, "если") || str_eq(w, "поскольку")
        || str_eq(w, "потому") || str_eq(w, "оттого") || str_eq(w, "хотя") || str_eq(w, "хоть")
        || str_eq(w, "будто") || str_eq(w, "словно") || str_eq(w, "ибо") || str_eq(w, "едва")
        || str_eq(w, "лишь") || str_eq(w, "раз")
}

/// First-person singular pronoun forms.
pub open spec fn in_first_person_singular(w: Seq<char>) -> bool {
    w == "я"@ || w == "меня"@ || w == "мне"@ || w == "мной"@ || w == "мною"@
}

pub fn check_first_person_singular(w: &str) -> (r: bool)
    ensures
        r == in_first_person_singular(w@),
{
    str_eq(w, "я") || str_eq(w, "меня") || str_eq(w, "мне") || str_eq(w, "мной")
        || str_eq(w, "мною")
}

/// First-person plural pronoun forms.
pub open spec fn in_first_person_plural(w: Seq<char>) -> bool {
    w == "мы"@ || w == "нас"@ || w == "нам"@ || w == "нами"@
}

pub fn check_first_person_plural(w: &str) -> (r: bool)
    ensures
        r == in_first_person_plural(w@),
{
    str_eq(w, "мы") || str_eq(w, "нас") || str_eq(w, "нам") || str_eq(w, "нами")
}

/// Second-person singular pronoun forms.
pub open spec fn in_second_person_singular(w: Seq<char>) -> bool {
    w == "ты"@ || w == "тебя"@ || w == "тебе"@ || w == "тобой"@ || w == "тобою"@
}

pub fn check_second_person_singular(w: &str) -> (r: bool)
    ensures
        r == in_second_person_singular(w@),
{
    str_eq(w, "ты") || str_eq(w, "тебя") || str_eq(w, "тебе") || str_eq(w, "тобой")
        || str_eq(w, "тобою")
}

/// Second-person plural pronoun forms.
pub open spec fn in_second_person_plural(w: Seq<char>) -> bool {
    w == "вы"@ || w == "вас"@ || w == "вам"@ || w == "вами"@
}

pub fn check_second_person_plural(w: &str) -> (r: bool)
    ensures
        r == in_second_person_plural(w@),
{
    str_eq(w, "вы") || str_eq(w, "вас") || str_eq(w, "вам") || str_eq(w, "вами")
}

/// Third-person singular pronoun forms.
pub open spec fn in_third_person_singular(w: Seq<char>) -> bool {
    w == "он"@ || w == "она"@ || w == "оно"@ || w == "его"@ || w == "её"@ || w == "ему"@
        || w == "ей"@ || w == "им"@ || w == "ею"@
}

pub fn check_third_person_singular(w: &str) -> (r: bool)
    ensures
        r == in_third_person_singular(w@),
{
    str_eq(w, "он") || str_eq(w, "она") || str_eq(w, "оно") || str_eq(w, "его") || str_eq(w, "её")
        || str_eq(w, "ему") || str_eq(w, "ей") || str_eq(w, "им") || str_eq(w, "ею")
}

/// Third-person plural pronoun forms.
pub open spec fn in_third_person_plural(w: Seq<char>) -> bool {
    w == "они"@ || w == "их"@ || w == "им"@ || w == "ими"@
}

pub fn check_third_person_plural(w: &str) -> (r: bool)
    ensures
        r == in_third_person_plural(w@),
{
    str_eq(w, "они") || str_eq(w, "их") || str_eq(w, "им") || str_eq(w, "ими")
}

/// First-person possessive and reflexive forms.
pub open spec fn in_possessive_first_person(w: Seq<char>) -> bool {
    w == "мой"@ || w == "моя"@ || w == "моё"@ || w == "мои"@ || w == "мою"@ || w == "моего"@
        || w == "моей"@ || w == "моему"@ || w == "моим"@ || w == "моих"@ || w == "моими"@
        || w == "моём"@ || w == "себя"@ || w == "себе"@ || w == "собой"@ || w == "собою"@
}

pub fn check_possessive_first_person(w: &str) -> (r: bool)
    ensures
        r == in_possessive_first_person(w@),
{
    str_eq(w, "мой") || str_eq(w, "моя") || str_eq(w, "моё") || str_eq(w, "мои") || str_eq(w, "мою")
        || str_eq(w, "моего") || str_eq(w, "моей") || str_eq(w, "моему") || str_eq(w, "моим")
        || str_eq(w, "моих") || str_eq(w, "моими") || str_eq(w, "моём") || str_eq(w, "себя")
        || str_eq(w, "себе") || str_eq(w, "собой") || str_eq(w, "собою")
}

/// Verbs of inner states: thought, memory, perception, feeling.
pub open spec fn in_internal_predicates(w: Seq<char>) -> bool {
    w == "думаю"@ || w == "думал"@ || w == "думала"@ || w == "думали"@ || w == "думать"@
        || w == "помню"@ || w == "помнил"@ || w == "помнила"@ || w == "помнить"@ || w == "знаю"@
        || w == "знал"@ || w == "знала"@ || w == "знать"@ || w == "чувствую"@ || w == "чувствовал"@
        || w == "чувствовала"@ || w == "чувствовать"@ || w == "казалось"@ || w == "кажется"@
        || w == "казаться"@ || w == "хочу"@ || w == "хотел"@ || w == "хотела"@ || w == "хотеть"@
        || w == "люблю"@ || w == "любил"@ || w == "любила"@ || w == "любить"@ || w == "верю"@
        || w == "верил"@ || w == "верить"@ || w == "боюсь"@ || w == "боялся"@ || w == "боялась"@
        || w == "бояться"@ || w == "понимаю"@ || w == "понимал"@ || w == "понимала"@
        || w == "понимать"@ || w == "надеюсь"@ || w == "надеялся"@ || w == "мечтаю"@
        || w == "мечтал"@ || w == "переживаю"@ || w == "переживал"@ || w == "вижу"@ || w == "видел"@
        || w == "видела"@ || w == "видеть"@ || w == "слышу"@ || w == "слышал"@ || w == "слышала"@
        || w == "слышать"@
}

pub fn check_internal_predicates(w: &str) -> (r: bool)
    ensures
        r == in_internal_predicates(w@),
{
    str_eq(w, "думаю") || str_eq(w, "думал") || str_eq(w, "думала") || str_eq(w, "думали")
        || str_eq(w, "думать") || str_eq(w, "помню") || str_eq(w, "помнил") || str_eq(w, "помнила")
        || str_eq(w, "помнить") || str_eq(w, "знаю") || str_eq(w, "знал") || str_eq(w, "знала")
        || str_eq(w, "знать") || str_eq(w, "чувствую") || str_eq(w, "чувствовал")
        || str_eq(w, "чувствовала") || str_eq(w, "чувствовать") || str_eq(w, "казалось")
        || str_eq(w, "кажется") || str_eq(w, "казаться") || str_eq(w, "хочу") || str_eq(w, "хотел")
        || str_eq(w, "хотела") || str_eq(w, "хотеть") || str_eq(w, "люблю") || str_eq(w, "любил")
        || str_eq(w, "любила") || str_eq(w, "любить") || str_eq(w, "верю") || str_eq(w, "верил")
        || str_eq(w, "верить") || str_eq(w, "боюсь") || str_eq(w, "боялся") || str_eq(w, "боялась")
        || str_eq(w, "бояться") || str_eq(w, "понимаю") || str_eq(w, "понимал")
        || str_eq(w, "понимала") || str_eq(w, "понимать") || str_eq(w, "надеюсь")
        || str_eq(w, "надеялся") || str_eq(w, "мечтаю") || str_eq(w, "мечтал")
        || str_eq(w, "переживаю") || str_eq(w, "переживал") || str_eq(w, "вижу")
        || str_eq(w, "видел") || str_eq(w, "видела") || str_eq(w, "видеть") || str_eq(w, "слышу")
        || str_eq(w, "слышал") || str_eq(w, "слышала") || str_eq(w, "слышать")
}

/// Verbs of observable outward actions.
pub open spec fn in_external_predicates(w: Seq<char>) -> bool {
    w == "иду"@ || w == "идёт"@ || w == "идём"@ || w == "идут"@ || w == "идти"@ || w == "шёл"@
        || w == "шла"@ || w == "шли"@ || w == "бегу"@ || w == "бежит"@ || w == "бежал"@
        || w == "бежала"@ || w == "бегать"@ || w == "катался"@ || w == "каталась"@
        || w == "катались"@ || w == "кататься"@ || w == "упал"@ || w == "упала"@ || w == "упали"@
        || w == "упасть"@ || w == "гулял"@ || w == "гуляла"@ || w == "гуляли"@ || w == "гулять"@
        || w == "играл"@ || w == "играла"@ || w == "играли"@ || w == "играть"@ || w == "плакал"@
        || w == "плакала"@ || w == "плакали"@ || w == "плакать"@ || w == "смеялся"@
        || w == "смеялась"@ || w == "смеялись"@ || w == "смеяться"@ || w == "говорю"@
        || w == "говорит"@ || w == "говорят"@ || w == "говорил"@ || w == "говорила"@
        || w == "говорить"@ || w == "сказал"@ || w == "сказала"@ || w == "сказали"@
        || w == "сказать"@ || w == "делаю"@ || w == "делал"@ || w == "делала"@ || w == "делать"@
        || w == "взял"@ || w == "взяла"@ || w == "взять"@ || w == "пошёл"@ || w == "пошла"@
        || w == "пошли"@ || w == "пойти"@ || w == "прыгал"@ || w == "прыгала"@ || w == "прыгать"@
        || w == "танцевал"@ || w == "танцевала"@ || w == "танцевали"@ || w == "танцевать"@
        || w == "подходит"@ || w == "подошёл"@ || w == "подошла"@ || w == "поднимаю"@
        || w == "поднял"@ || w == "подняла"@ || w == "поднять"@ || w == "держит"@ || w == "держал"@
        || w == "держала"@ || w == "держать"@ || w == "разбил"@ || w == "разбила"@ || w == "увидел"@
        || w == "увидела"@ || w == "увидеть"@
}

pub fn check_external_predicates(w: &str) -> (r: bool)
    ensures
        r == in_external_predicates(w@),
{
    str_eq(w, "иду") || str_eq(w, "идёт") || str_eq(w, "идём") || str_eq(w, "идут")
        || str_eq(w, "идти") || str_eq(w, "шёл") || str_eq(w, "шла") || str_eq(w, "шли")
        || str_eq(w, "бегу") || str_eq(w, "бежит") || str_eq(w, "бежал") || str_eq(w, "бежала")
        || str_eq(w, "бегать") || str_eq(w, "катался") || str_eq(w, "каталась")
        || str_eq(w, "катались") || str_eq(w, "кататься") || str_eq(w, "упал") || str_eq(w, "упала")
        || str_eq(w, "упали") || str_eq(w, "упасть") || str_eq(w, "гулял") || str_eq(w, "гуляла")
        || str_eq(w, "гуляли") || str_eq(w, "гулять") || str_eq(w, "играл") || str_eq(w, "играла")
        || str_eq(w, "играли") || str_eq(w, "играть") || str_eq(w, "плакал") || str_eq(w, "плакала")
        || str_eq(w, "плакали") || str_eq(w, "плакать") || str_eq(w, "смеялся")
        || str_eq(w, "смеялась") || str_eq(w, "смеялись") || str_eq(w, "смеяться")
        || str_eq(w, "говорю") || str_eq(w, "говорит") || str_eq(w, "говорят")
        || str_eq(w, "говорил") || str_eq(w, "говорила") || str_eq(w, "говорить")
        || str_eq(w, "сказал") || str_eq(w, "сказала") || str_eq(w, "сказали")
        || str_eq(w, "сказать") || str_eq(w, "делаю") || str_eq(w, "делал") || str_eq(w, "делала")
        || str_eq(w, "делать") || str_eq(w, "взял") || str_eq(w, "взяла") || str_eq(w, "взять")
        || str_eq(w, "пошёл") || str_eq(w, "пошла") || str_eq(w, "пошли") || str_eq(w, "пойти")
        || str_eq(w, "прыгал") || str_eq(w, "прыгала") || str_eq(w, "прыгать")
        || str_eq(w, "танцевал") || str_eq(w, "танцевала") || str_eq(w, "танцевали")
        || str_eq(w, "танцевать") || str_eq(w, "подходит") || str_eq(w, "подошёл")
        || str_eq(w, "подошла") || str_eq(w, "поднимаю") || str_eq(w, "поднял")
        || str_eq(w, "подняла") || str_eq(w, "поднять") || str_eq(w, "держит")
        || str_eq(w, "держал") || str_eq(w, "держала") || str_eq(w, "держать")
        || str_eq(w, "разбил") || str_eq(w, "разбила") || str_eq(w, "увидел")
        || str_eq(w, "увидела") || str_eq(w, "увидеть")
}

/// Filler words.
pub open spec fn in_filler_words(w: Seq<char>) -> bool {
    w == "же"@ || w == "ведь"@ || w == "ну"@ || w == "вот"@ || w == "короче"@ || w == "типа"@
        || w == "значит"@ || w == "вообще"@ || w == "просто"@ || w == "блин"@
}

pub fn check_filler_words(w: &str) -> (r: bool)
    ensures
        r == in_filler_words(w@),
{
    str_eq(w, "же") || str_eq(w, "ведь") || str_eq(w, "ну") || str_eq(w, "вот")
        || str_eq(w, "короче") || str_eq(w, "типа") || str_eq(w, "значит") || str_eq(w, "вообще")
        || str_eq(w, "просто") || str_eq(w, "блин")
}

/// Common function words counted by the stop-word index.
pub open spec fn in_stop_words(w: Seq<char>) -> bool {
    w == "и"@ || w == "в"@ || w == "во"@ || w == "не"@ || w == "что"@ || w == "на"@ || w == "с"@
        || w == "со"@ || w == "как"@ || w == "а"@ || w == "то"@ || w == "всё"@ || w == "так"@
        || w == "его"@ || w == "но"@ || w == "да"@ || w == "к"@ || w == "у"@ || w == "же"@
        || w == "за"@ || w == "бы"@ || w == "по"@ || w == "только"@ || w == "её"@ || w == "мне"@
        || w == "было"@ || w == "вот"@ || w == "от"@ || w == "меня"@ || w == "ещё"@ || w == "нет"@
        || w == "о"@ || w == "из"@ || w == "ему"@ || w == "ли"@ || w == "если"@ || w == "уже"@
        || w == "или"@ || w == "ни"@ || w == "был"@ || w == "до"@ || w == "там"@ || w == "потом"@
        || w == "себя"@ || w == "ей"@ || w == "тут"@ || w == "где"@ || w == "есть"@ || w == "для"@
        || w == "мы"@ || w == "тебя"@ || w == "их"@ || w == "чем"@ || w == "была"@ || w == "без"@
        || w == "чтобы"@ || w == "под"@ || w == "будет"@ || w == "тогда"@ || w == "кто"@
        || w == "этот"@ || w == "это"@
}

pub fn check_stop_words(w: &str) -> (r: bool)
    ensures
        r == in_stop_words(w@),
{
    str_eq(w, "и") || str_eq(w, "в") || str_eq(w, "во") || str_eq(w, "не") || str_eq(w, "что")
        || str_eq(w, "на") || str_eq(w, "с") || str_eq(w, "со") || str_eq(w, "как")
        || str_eq(w, "а") || str_eq(w, "то") || str_eq(w, "всё") || str_eq(w, "так")
        || str_eq(w, "его") || str_eq(w, "но") || str_eq(w, "да") || str_eq(w, "к")
        || str_eq(w, "у") || str_eq(w, "же") || str_eq(w, "за") || str_eq(w, "бы")
        || str_eq(w, "по") || str_eq(w, "только") || str_eq(w, "её") || str_eq(w, "мне")
        || str_eq(w, "было") || str_eq(w, "вот") || str_eq(w, "от") || str_eq(w, "меня")
        || str_eq(w, "ещё") || str_eq(w, "нет") || str_eq(w, "о") || str_eq(w, "из")
        || str_eq(w, "ему") || str_eq(w, "ли") || str_eq(w, "если") || str_eq(w, "уже")
        || str_eq(w, "или") || str_eq(w, "ни") || str_eq(w, "был") || str_eq(w, "до")
        || str_eq(w, "там") || str_eq(w, "потом") || str_eq(w, "себя") || str_eq(w, "ей")
        || str_eq(w, "тут") || str_eq(w, "где") || str_eq(w, "есть") || str_eq(w, "для")
        || str_eq(w, "мы") || str_eq(w, "тебя") || str_eq(w, "их") || str_eq(w, "чем")
        || str_eq(w, "была") || str_eq(w, "без") || str_eq(w, "чтобы") || str_eq(w, "под")
        || str_eq(w, "будет") || str_eq(w, "тогда") || str_eq(w, "кто") || str_eq(w, "этот")
        || str_eq(w, "это")
}

/// Words naming emotions or emotional states.
pub open spec fn in_emotion_words(w: Seq<char>) -> bool {
    w == "весело"@ || w == "грустно"@ || w == "печально"@ || w == "печальный"@ || w == "радость"@
        || w == "радостно"@ || w == "радовался"@ || w == "счастье"@ || w == "счастлив"@
        || w == "счастлива"@ || w == "счастливый"@ || w == "страшно"@ || w == "страх"@
        || w == "злость"@ || w == "злой"@ || w == "обида"@ || w == "обидно"@ || w == "любовь"@
        || w == "тоска"@ || w == "тревога"@ || w == "восторг"@ || w == "горе"@ || w == "боль"@
        || w == "больно"@ || w == "приятно"@ || w == "ужасно"@ || w == "ужас"@ || w == "жалко"@
        || w == "скучно"@ || w == "весёлый"@ || w == "грусть"@ || w == "эмоции"@
}

pub fn check_emotion_words(w: &str) -> (r: bool)
    ensures
        r == in_emotion_words(w@),
{
    str_eq(w, "весело") || str_eq(w, "грустно") || str_eq(w, "печально") || str_eq(w, "печальный")
        || str_eq(w, "радость") || str_eq(w, "радостно") || str_eq(w, "радовался")
        || str_eq(w, "счастье") || str_eq(w, "счастлив") || str_eq(w, "счастлива")
        || str_eq(w, "счастливый") || str_eq(w, "страшно") || str_eq(w, "страх")
        || str_eq(w, "злость") || str_eq(w, "злой") || str_eq(w, "обида") || str_eq(w, "обидно")
        || str_eq(w, "любовь") || str_eq(w, "тоска") || str_eq(w, "тревога") || str_eq(w, "восторг")
        || str_eq(w, "горе") || str_eq(w, "боль") || str_eq(w, "больно") || str_eq(w, "приятно")
        || str_eq(w, "ужасно") || str_eq(w, "ужас") || str_eq(w, "жалко") || str_eq(w, "скучно")
        || str_eq(w, "весёлый") || str_eq(w, "грусть") || str_eq(w, "эмоции")
}

/// Words naming family members and shared activity.
pub open spec fn in_social_family_words(w: Seq<char>) -> bool {
    w == "мама"@ || w == "мамой"@ || w == "маме"@ || w == "маму"@ || w == "мамы"@ || w == "папа"@
        || w == "папой"@ || w == "папе"@ || w == "папу"@ || w == "папы"@ || w == "родители"@
        || w == "родителей"@ || w == "родителями"@ || w == "семья"@ || w == "семьёй"@
        || w == "семье"@ || w == "брат"@ || w == "братом"@ || w == "сестра"@ || w == "сестрой"@
        || w == "бабушка"@ || w == "бабушкой"@ || w == "дедушка"@ || w == "дедушкой"@
        || w == "друг"@ || w == "другом"@ || w == "друзья"@ || w == "друзьями"@ || w == "подруга"@
        || w == "подругой"@ || w == "вместе"@
}

pub fn check_social_family_words(w: &str) -> (r: bool)
    ensures
        r == in_social_family_words(w@),
{
    str_eq(w, "мама") || str_eq(w, "мамой") || str_eq(w, "маме") || str_eq(w, "маму")
        || str_eq(w, "мамы") || str_eq(w, "папа") || str_eq(w, "папой") || str_eq(w, "папе")
        || str_eq(w, "папу") || str_eq(w, "папы") || str_eq(w, "родители") || str_eq(w, "родителей")
        || str_eq(w, "родителями") || str_eq(w, "семья") || str_eq(w, "семьёй")
        || str_eq(w, "семье") || str_eq(w, "брат") || str_eq(w, "братом") || str_eq(w, "сестра")
        || str_eq(w, "сестрой") || str_eq(w, "бабушка") || str_eq(w, "бабушкой")
        || str_eq(w, "дедушка") || str_eq(w, "дедушкой") || str_eq(w, "друг") || str_eq(w, "другом")
        || str_eq(w, "друзья") || str_eq(w, "друзьями") || str_eq(w, "подруга")
        || str_eq(w, "подругой") || str_eq(w, "вместе")
}

/// Adverbs listed outright, beside the derivational heuristic.
pub open spec fn in_known_adverbs(w: Seq<char>) -> bool {
    w == "очень"@ || w == "всегда"@ || w == "никогда"@ || w == "иногда"@ || w == "сейчас"@
        || w == "теперь"@ || w == "потом"@ || w == "здесь"@ || w == "там"@ || w == "тогда"@
        || w == "вчера"@ || w == "сегодня"@ || w == "завтра"@ || w == "уже"@ || w == "ещё"@
        || w == "быстро"@ || w == "медленно"@ || w == "хорошо"@ || w == "плохо"@ || w == "рядом"@
        || w == "снова"@ || w == "опять"@ || w == "вдруг"@ || w == "сразу"@ || w == "сильно"@
        || w == "много"@ || w == "мало"@
}

pub fn check_known_adverbs(w: &str) -> (r: bool)
    ensures
        r == in_known_adverbs(w@),
{
    str_eq(w, "очень") || str_eq(w, "всегда") || str_eq(w, "никогда") || str_eq(w, "иногда")
        || str_eq(w, "сейчас") || str_eq(w, "теперь") || str_eq(w, "потом") || str_eq(w, "здесь")
        || str_eq(w, "там") || str_eq(w, "тогда") || str_eq(w, "вчера") || str_eq(w, "сегодня")
        || str_eq(w, "завтра") || str_eq(w, "уже") || str_eq(w, "ещё") || str_eq(w, "быстро")
        || str_eq(w, "медленно") || str_eq(w, "хорошо") || str_eq(w, "плохо") || str_eq(w, "рядом")
        || str_eq(w, "снова") || str_eq(w, "опять") || str_eq(w, "вдруг") || str_eq(w, "сразу")
        || str_eq(w, "сильно") || str_eq(w, "много") || str_eq(w, "мало")
}

/// All conjunctions: the coordinating and the subordinating lists together.
pub open spec fn in_conjunctions(w: Seq<char>) -> bool {
    in_coordinating_conjunctions(w) || in_subordinating_conjunctions(w)
}

pub fn check_conjunctions(w: &str) -> (r: bool)
    ensures
        r == in_conjunctions(w@),
{
    check_coordinating_conjunctions(w) || check_subordinating_conjunctions(w)
}

/// Infinitive endings.
pub open spec fn has_infinitive_ending(w: Seq<char>) -> bool {
    str_ends_with(w, "ть"@) || str_ends_with(w, "ти"@) || str_ends_with(w, "чь"@)
        || str_ends_with(w, "ться"@) || str_ends_with(w, "тись"@) || str_ends_with(w, "чься"@)
}

pub fn check_infinitive_ending(w: &str) -> (r: bool)
    ensures
        r == has_infinitive_ending(w@),
{
    ends_with_str(w, "ть") || ends_with_str(w, "ти") || ends_with_str(w, "чь")
        || ends_with_str(w, "ться") || ends_with_str(w, "тись") || ends_with_str(w, "чься")
}

/// Participle endings.
pub open spec fn has_participle_ending(w: Seq<char>) -> bool {
    str_ends_with(w, "ущий"@) || str_ends_with(w, "ющий"@) || str_ends_with(w, "ащий"@)
        || str_ends_with(w, "ящий"@) || str_ends_with(w, "вший"@) || str_ends_with(w, "ший"@)
        || str_ends_with(w, "емый"@) || str_ends_with(w, "имый"@) || str_ends_with(w, "нный"@)
        || str_ends_with(w, "тый"@) || str_ends_with(w, "анный"@) || str_ends_with(w, "янный"@)
        || str_ends_with(w, "енный"@) || str_ends_with(w, "ённый"@)
}

pub fn check_participle_ending(w: &str) -> (r: bool)
    ensures
        r == has_participle_ending(w@),
{
    ends_with_str(w, "ущий") || ends_with_str(w, "ющий") || ends_with_str(w, "ащий")
        || ends_with_str(w, "ящий") || ends_with_str(w, "вший") || ends_with_str(w, "ший")
        || ends_with_str(w, "емый") || ends_with_str(w, "имый") || ends_with_str(w, "нный")
        || ends_with_str(w, "тый") || ends_with_str(w, "анный") || ends_with_str(w, "янный")
        || ends_with_str(w, "енный") || ends_with_str(w, "ённый")
}

/// Past-tense endings.
pub open spec fn has_past_tense_ending(w: Seq<char>) -> bool {
    str_ends_with(w, "л"@) || str_ends_with(w, "ла"@) || str_ends_with(w, "ло"@)
        || str_ends_with(w, "ли"@) || str_ends_with(w, "лся"@) || str_ends_with(w, "лась"@)
        || str_ends_with(w, "лось"@) || str_ends_with(w, "лись"@)
}

pub fn check_past_tense_ending(w: &str) -> (r: bool)
    ensures
        r == has_past_tense_ending(w@),
{
    ends_with_str(w, "л") || ends_with_str(w, "ла") || ends_with_str(w, "ло")
        || ends_with_str(w, "ли") || ends_with_str(w, "лся") || ends_with_str(w, "лась")
        || ends_with_str(w, "лось") || ends_with_str(w, "лись")
}

/// Adjective endings.
pub open spec fn has_adjective_ending(w: Seq<char>) -> bool {
    str_ends_with(w, "ый"@) || str_ends_with(w, "ий"@) || str_ends_with(w, "ой"@)
        || str_ends_with(w, "ая"@) || str_ends_with(w, "яя"@) || str_ends_with(w, "ое"@)
        || str_ends_with(w, "ее"@) || str_ends_with(w, "ые"@) || str_ends_with(w, "ие"@)
        || str_ends_with(w, "ого"@) || str_ends_with(w, "его"@) || str_ends_with(w, "ому"@)
        || str_ends_with(w, "ему"@) || str_ends_with(w, "ым"@) || str_ends_with(w, "им"@)
        || str_ends_with(w, "ом"@) || str_ends_with(w, "ем"@) || str_ends_with(w, "ую"@)
        || str_ends_with(w, "юю"@) || str_ends_with(w, "ей"@) || str_ends_with(w, "ых"@)
        || str_ends_with(w, "их"@) || str_ends_with(w, "ыми"@) || str_ends_with(w, "ими"@)
}

pub fn check_adjective_ending(w: &str) -> (r: bool)
    ensures
        r == has_adjective_ending(w@),
{
    ends_with_str(w, "ый") || ends_with_str(w, "ий") || ends_with_str(w, "ой")
        || ends_with_str(w, "ая") || ends_with_str(w, "яя") || ends_with_str(w, "ое")
        || ends_with_str(w, "ее") || ends_with_str(w, "ые") || ends_with_str(w, "ие")
        || ends_with_str(w, "ого") || ends_with_str(w, "его") || ends_with_str(w, "ому")
        || ends_with_str(w, "ему") || ends_with_str(w, "ым") || ends_with_str(w, "им")
        || ends_with_str(w, "ом") || ends_with_str(w, "ем") || ends_with_str(w, "ую")
        || ends_with_str(w, "юю") || ends_with_str(w, "ей") || ends_with_str(w, "ых")
        || ends_with_str(w, "их") || ends_with_str(w, "ыми") || ends_with_str(w, "ими")
}

/// Gerund patterns: each suffix counts only on a word whose UTF-8 byte
/// length exceeds the suffix byte length by more than two, so that a real
/// stem is left.
pub open spec fn gerund_form(w: Seq<char>) -> bool {
    (str_ends_with(w, "ая"@) && utf8_len(w) > 6) || (str_ends_with(w, "яя"@) && utf8_len(w) > 6)
        || (str_ends_with(w, "ив"@) && utf8_len(w) > 6)
        || (str_ends_with(w, "ав"@) && utf8_len(w) > 6)
        || (str_ends_with(w, "ев"@) && utf8_len(w) > 6)
        || (str_ends_with(w, "ув"@) && utf8_len(w) > 6)
        || (str_ends_with(w, "ывая"@) && utf8_len(w) > 10)
        || (str_ends_with(w, "ивая"@) && utf8_len(w) > 10)
        || (str_ends_with(w, "вшись"@) && utf8_len(w) > 12)
        || (str_ends_with(w, "вши"@) && utf8_len(w) > 8)
}

pub fn check_gerund_form(w: &str) -> (r: bool)
    ensures
        r == gerund_form(w@),
{
    (ends_with_str(w, "ая") && utf8_len_gt(w, 6)) || (ends_with_str(w, "яя") && utf8_len_gt(w, 6))
        || (ends_with_str(w, "ив") && utf8_len_gt(w, 6))
        || (ends_with_str(w, "ав") && utf8_len_gt(w, 6))
        || (ends_with_str(w, "ев") && utf8_len_gt(w, 6))
        || (ends_with_str(w, "ув") && utf8_len_gt(w, 6))
        || (ends_with_str(w, "ывая") && utf8_len_gt(w, 10))
        || (ends_with_str(w, "ивая") && utf8_len_gt(w, 10))
        || (ends_with_str(w, "вшись") && utf8_len_gt(w, 12))
        || (ends_with_str(w, "вши") && utf8_len_gt(w, 8))
}

/// Present-tense endings: each ending counts only on a word whose UTF-8
/// byte length exceeds the ending byte length by more than two, leaving a
/// non-empty stem.
pub open spec fn present_tense_form(w: Seq<char>) -> bool {
    (str_ends_with(w, "ю"@) && utf8_len(w) > 4) || (str_ends_with(w, "ешь"@) && utf8_len(w) > 8)
        || (str_ends_with(w, "ёшь"@) && utf8_len(w) > 8)
        || (str_ends_with(w, "ет"@) && utf8_len(w) > 6)
        || (str_ends_with(w, "ём"@) && utf8_len(w) > 6)
        || (str_ends_with(w, "ем"@) && utf8_len(w) > 6)
        || (str_ends_with(w, "ете"@) && utf8_len(w) > 8)
        || (str_ends_with(w, "ют"@) && utf8_len(w) > 6)
        || (str_ends_with(w, "у"@) && utf8_len(w) > 4)
        || (str_ends_with(w, "ишь"@) && utf8_len(w) > 8)
        || (str_ends_with(w, "ит"@) && utf8_len(w) > 6)
        || (str_ends_with(w, "им"@) && utf8_len(w) > 6)
        || (str_ends_with(w, "ите"@) && utf8_len(w) > 8)
        || (str_ends_with(w, "ят"@) && utf8_len(w) > 6)
        || (str_ends_with(w, "ат"@) && utf8_len(w) > 6)
}

pub fn check_present_tense_form(w: &str) -> (r: bool)
    ensures
        r == present_tense_form(w@),
{
    (ends_with_str(w, "ю") && utf8_len_gt(w, 4)) || (ends_with_str(w, "ешь") && utf8_len_gt(w, 8))
        || (ends_with_str(w, "ёшь") && utf8_len_gt(w, 8))
        || (ends_with_str(w, "ет") && utf8_len_gt(w, 6))
        || (ends_with_str(w, "ём") && utf8_len_gt(w, 6))
        || (ends_with_str(w, "ем") && utf8_len_gt(w, 6))
        || (ends_with_str(w, "ете") && utf8_len_gt(w, 8))
        || (ends_with_str(w, "ют") && utf8_len_gt(w, 6))
        || (ends_with_str(w, "у") && utf8_len_gt(w, 4))
        || (ends_with_str(w, "ишь") && utf8_len_gt(w, 8))
        || (ends_with_str(w, "ит") && utf8_len_gt(w, 6))
        || (ends_with_str(w, "им") && utf8_len_gt(w, 6))
        || (ends_with_str(w, "ите") && utf8_len_gt(w, 8))
        || (ends_with_str(w, "ят") && utf8_len_gt(w, 6))
        || (ends_with_str(w, "ат") && utf8_len_gt(w, 6))
}

} // verus!
