//! The compiled-in dictionary of phrase words.
//!
//! The word list is embedded as whitespace-separated text and read
//! through the same tokenizer that phrase validation uses, so the
//! dictionary is, by construction, the token sequence of that text.

use vstd::prelude::*;
use crate::tokenize::{is_space, tokens, word_wf, split_tokens, lemma_tokens_wf,
    lemma_tokens_nonempty};

verus! {

/// The first dictionary entry, kept as its own constant so that the
/// proof that the dictionary is non-empty only has to reveal a short
/// literal.
pub const WORDLIST_HEAD: &'static str = "abandon";

/// The remaining dictionary entries, as whitespace-separated text.
pub const WORDLIST_TAIL: &'static str = "\
ability able about above absent accept accord account accuse achieve acid across action active \
actor actual adapt adjust admire adopt adore advance advice advise affair afford afraid after \
again against agent agree ahead airport alarm album alert alien alike alive alley allow almond \
almost alone along aloud alpha already also alter always amber among amount ample amuse anchor \
ancient angle angry animal ankle annual answer antique anxious any apart apology appear apple \
apply april apron arch area arena argue arise armor army around arrange arrive arrow artist \
ascend ashore aside asleep aspect asset assist atlas atom attach attack attend auction august \
aunt author autumn avenue avoid awake award aware away awful baby bacon badge bagel baker \
balance balcony ball bamboo banana band banner barley barn barrel base basic basin basket bass \
batch bath battle beach beacon beam bean bear beast beauty beaver become bedtime beech beef \
beetle before begin behave behind being belief bell belly below belt bench bend benefit berry \
beside best better between beyond bicycle bike bind birch bird birth bishop bitter black blade \
blame blanket blast blaze bleak blend bless blind blink bliss block blond blood bloom blossom \
blue bluff blush board boast boat body boil bold bonus book boost boot border borrow bottle \
bottom bounce bound bowl brace brain branch brand brass brave bread breath breeze brick bridge \
brief bright bring brisk broad bronze brook broom brother brown brush bubble bucket buckle \
budget buffalo build bulb bulk bundle bunny burden bureau burst bush business busy butter \
button buyer cabbage cabin cable cactus cage cake calf call calm camel camera camp canal candle \
candy canoe canvas canyon capable capital captain capture carbon card cargo carol carpet carrot \
carry cart carve case castle casual cat catalog catch cattle cause cave cedar ceiling celery \
cellar cement census cereal certain chain chair chalk champion chance change chaos chapter \
charge charm chase cheap check cheek cheer cheese cherry chess chief child chimney choice choir \
chop chorus chuckle chunk churn cider cigar cinema circle citizen city civil claim clap clarify \
clash clasp class claw clay clean clear clerk clever click client cliff climb clinic clip cloak \
clock close cloth cloud clover clown club clue cluster coach coal coast cobweb coconut code \
coffee coil coin collar collect color column combine comedy comet comfort comic common company \
concert conduct confirm congress connect consider control convince cook cool copper copy coral \
cord core corn corner correct cost cottage cotton couch country couple courage course cousin \
cover cozy crack cradle craft crane crash crater crawl crazy cream credit creek crew cricket \
crime crisp critic crop cross crowd crown crucial cruise crumble crunch crystal cube culture \
cup cupboard curious curl current curtain curve cushion custom cute cycle daily dairy daisy \
damage damp dance danger daring dash dawn dear debate debris decade december decent decide \
declare decline decorate deer defense define degree delay deliver demand dentist deny depart \
depend deposit depth deputy describe desert design desk detail detect develop device devote \
diagram dial diamond diary dice diesel diet differ digital dignity dilemma dinner dinosaur \
direct dirt discover dish dismiss disorder display distance divert divide dizzy dock document \
dog doll dolphin domain donate donkey donor door dose double dough dove down dozen draft dragon \
drama drastic draw dream dress drift drill drink drip drive drop drum dune during dust dutch \
duty dwarf dwell eager eagle early earn earth easily east easy echo ecology economy edge edit \
educate effort eight either elbow elder electric elegant element elephant elevator elite else \
embark embody embrace emerge emotion employ empower empty enable enact end endless endorse \
enemy energy enforce engage engine enhance enjoy enlist enough enrich enroll ensure enter \
entire entry envelope episode equal equip era erase erode erosion errand erupt escape essay \
essence estate eternal evening event ever every evidence evoke evolve exact example excess \
exchange excite excuse execute exercise exhaust exhibit exile exist exit exotic expand expect \
expire explain expose express extend extra eye eyebrow fabric face faculty faint faith fall \
fame family famous fancy fantasy farm fashion fatal father fatigue fault favorite feature \
february federal fee feed feel female fence festival fetch fever few fiber fiction field \
fifteen figure file film filter finch find fine finger finish fire firm first fiscal fish \
fitness five fix flag flame flash flat flavor flee flight flip float flock floor flour flower \
fluid flush foam focus fog foil fold follow food foot force forest forget fork fortune forum \
forward fossil foster found fountain fourth fox fragile frame frequent fresh friend fringe frog \
front frost frown frozen fruit fuel fun funny furnace fury future gadget gain galaxy gallery \
gallon game gap garage garbage garden garlic garment gate gather gauge gaze general genius \
genre gentle genuine gesture giant gift giggle ginger giraffe girl give glad glance glare glass \
glide glimpse globe gloom glory glove glow glue goat gold good goose gorilla gospel gossip \
govern gown grab grace grain grand grant grape grass gravity great green grid grief grit \
grocery group grove grow growth guard guess guide guilt guitar gulf gust habit hair half hall \
hammer hamster hand happy harbor hard harsh harvest hat have hawk hazard hazel head health \
heart heavy hedgehog height hello helmet help hen herb heron hero hidden high hill hint hire \
history hobby hockey hold hole holiday hollow home honey hood hope horn horror horse hospital \
host hotel hour hover hub huge human humble humor hundred hungry hunt hurdle hurry hurt husband \
hybrid ice icon idea identify idle ignore ill image imitate immense immune impact impose \
improve impulse inch income increase index indicate indoor industry infant inform inhale \
inherit initial inject injury inmate inner innocent input inquiry insane insect inside inspire \
install intact interest into invest invite involve iron island isolate issue item ivory jacket \
jaguar jar jazz jealous jeans jelly jewel join joke journey judge juice july jump jungle junior \
just kangaroo keen keep ketchup kettle key kick kidney kind kingdom kiss kit kitchen kite \
kitten kiwi knee knife knock know label labor ladder lady lake lamp language laptop large later \
latin laugh laundry lava lawn lawsuit layer lazy leader leaf learn leave lecture left leg legal \
legend leisure lemon lend length lens leopard lesson letter level liar liberty library license \
life lift light like limb limit line linen link lion liquid list little live lizard load loan \
lobster local lock logic lonely long loud lounge love loyal lucky luggage lumber lunar lunch \
luxury lyrics machine magic magnet maid mail major make mammal man manage mandate mango mansion \
manual maple marble march margin marine market marriage mask mass master material math matrix \
matter maximum maze meadow mean measure meat mechanic medal media melody melt member memory \
mention menu mercy merge merit merry mesh message metal meter method middle midnight milk \
million mimic mind minimum minor minute miracle mirror misery miss mistake mixed mixture mobile \
model modify moment monitor monkey monster month moon moral more morning mosquito mother motion \
motor mountain mouse mouth mule multiply muscle museum mushroom music must mutual myself \
mystery myth naive name napkin narrow nasty nation nature near neck need negative neglect \
neither nephew nerve nest network neutral never news next nice night noble noise noodle normal \
north nose notable note nothing notice novel nuclear number nurse oak obey object oblige \
observe obtain obvious occur ocean october odor off offer office often olive omit once one \
onion online only onto opera opinion oppose orange orbit orchard order ordinary organ orient \
original orphan ostrich other outdoor outer output outside oval oven over owner oxygen oyster \
pact paddle page pair palace palm panda panel panther paper parade parent park parrot party \
pass patch path patient patrol pattern pause pave payment peace peach peanut pear peasant \
pelican penalty pencil people pepper perfect permit person pet phone photo phrase physical \
piano picnic picture piece pig pigeon pill pilot pink pioneer pipe pistol pitch pizza place \
planet plastic plate play please pledge pluck plug plunge poem poet polar pole police pond pony \
pool popular portion position possible post potato pottery poverty powder power practice praise \
predict prefer prepare present pretty prevent price pride primary print priority prison private \
prize problem process produce profit program project promote proper protect proud provide \
public pudding pull pulp pulse pumpkin punch pupil puppy purchase purity purpose purse push \
puzzle pyramid quality quantum quarter question quick quit quiz quote rabbit raccoon race rack \
radar radio rail rain raise rally ramp ranch random range rapid rare rate rather raven razor \
ready real reason rebel rebuild recall receive recipe record recycle reduce reflect reform \
refuse region regret regular reject relax release relief rely remain remember remind remove \
render renew rent reopen repair repeat replace report require rescue resemble resist resource \
response rest retire retreat reunion review reward rhythm rib ribbon rice rich ride ridge rifle \
right rigid ring riot ripple risk ritual rival river road roast robin robot robust rocket \
romance roof rookie room rose rotate rough round route royal rubber rude rug rule runway rural \
saddle sadness safe sail salad salmon salon salt salute same sample sand satisfy satoshi sauce \
sausage save scale scan scare scatter scene scheme school science scissors scorpion scout scrap \
screen script scrub seat second secret section security seed seek segment select sell seminar \
senior sense sentence series service session settle setup seven shadow shaft shallow share shed \
shell sheriff shield shift shine ship shiver shock shoe shoot shop short shoulder shove shrimp \
shrug shuffle shy sibling sick side siege sight sign silent silk silly silver similar simple \
since sing siren sister situate six size skate sketch ski skill skin skirt skull slab slam \
sleep slender slice slide slight slim slogan slot slow slush small smart smile smoke smooth \
snack snake snap sniff snow soap soccer social sock soda soft solar soldier solid solution \
solve someone song soon sorry sort soul sound soup source south space spare spatial spawn speak \
special speed spell spend sphere spice spider spike spin spirit split spoil sponsor spoon sport \
spot spray spread spring spy square squeeze squirrel stable stadium staff stage stairs stamp \
stand start state stay steak steel stem step stereo stick still sting stock stomach stone stool \
story stove strategy street strike strong struggle student stuff stumble style subject submit \
subway success such sudden suffer sugar suggest suit summer sun sunny sunset supply supreme \
sure surface surge surprise surround survey suspect sustain swallow swamp swarm swear sweet \
swift swim swing switch sword symbol symptom syrup system table tackle tag tail talent talk \
tank tape target task taste tattoo taxi teach team tell ten tenant tennis tent term text thank \
that theme theory there they thing this thought three thrive throw thumb thunder ticket tide \
tiger tilt timber time tiny tip tired tissue title toast tobacco today toddler toe together \
toilet token tomato tomorrow tone tongue tonight tool tooth top topic topple torch tornado \
tortoise toss total tourist toward tower town toy track trade traffic tragic train transfer \
trap travel tray treat tree trend trial tribe trick trim trip trophy trouble truck trumpet \
trunk trust truth try tube tuition tumble tuna tunnel turkey turn turtle twelve twenty twice \
twin twist two typical ugly umbrella unable unaware uncle uncover under undo unfair unfold \
unhappy uniform unique unit universe unknown unlock until unusual unveil update upgrade uphold \
upon upper upset urban urge usage useful useless usual utility vacant vacuum vague valid valley \
value valve van vanish vapor various vast vault vehicle velvet vendor venture venue verb verify \
version very vessel veteran viable vibrant vicious victory video view village vintage violet \
violin virtual virus visa visit visual vital vivid vocal voice volcano volume vote voyage wage \
wagon wait walk wall walnut want warfare warm warrior wash wasp waste water wave way wealth \
weapon wear weasel weather web wedding weekend weird welcome west wheat wheel when whale \
whisper wide width wife wild will wind window wine wing wink winner winter wire wisdom wise \
wish witness wolf woman wonder wood wool word work world worry worth wrap wreck wrestle wrist \
write wrong yard year yellow you young youth zebra zero zone zoo";

/// The full wordlist text: the head entry, a space, the remaining entries.
pub open spec fn wordlist() -> Seq<char> {
    WORDLIST_HEAD@ + " "@ + WORDLIST_TAIL@
}

/// The dictionary: the ordered words of the compiled-in text.
pub open spec fn dictionary() -> Seq<Seq<char>> {
    tokens(wordlist())
}

/// Whether `w` is a dictionary word.
pub open spec fn in_dictionary(w: Seq<char>) -> bool {
    dictionary().contains(w)
}

/// The wordlist text as a runtime value.
pub fn wordlist_text() -> (s: String)
    ensures
        s@ == wordlist(),
{
    let mut s = String::from_str(WORDLIST_HEAD);
    s.append(" ");
    s.append(WORDLIST_TAIL);
    s
}

/// The dictionary as a runtime value: the ordered list of words.
pub fn dictionary_words() -> (words: Vec<String>)
    ensures
        words.deep_view() == dictionary(),
{
    let text = wordlist_text();
    split_tokens(text.as_str())
}

/// Every dictionary word is non-empty and free of whitespace.
pub proof fn lemma_dictionary_words_wf()
    ensures
        forall|k: int| 0 <= k < dictionary().len() ==> word_wf(#[trigger] dictionary()[k]),
{
    lemma_tokens_wf(wordlist());
}

/// The dictionary has at least one word.
pub proof fn lemma_dictionary_nonempty()
    ensures
        dictionary().len() > 0,
{
    reveal_strlit("abandon");
    assert(WORDLIST_HEAD@ == "abandon"@);
    assert(wordlist()[0] == 'a');
    assert(!is_space(wordlist()[0]));
    lemma_tokens_nonempty(wordlist(), 0);
}

/// Whether `w` occurs among `words`; a linear scan of the list.
pub fn contains_word(words: &Vec<String>, w: &String) -> (r: bool)
    ensures
        r == words.deep_view().contains(w@),
{
    let mut i: usize = 0;
    while i < words.len()
        invariant
            i <= words.len(),
            forall|k: int| 0 <= k < i ==> words.deep_view()[k] != w@,
        decreases words.len() - i,
    {
        if words[i].eq(w) {
            assert(words.deep_view()[i as int] == w@);
            return true;
        }
        i = i + 1;
    }
    assert(forall|k: int| 0 <= k < words.deep_view().len() ==> words.deep_view()[k] != w@);
    false
}

} // verus!
