use symmetry_swap::accounts::{OraclePrice, TokenPriceData, TokenSettings};
use symmetry_swap::address::Address;
use symmetry_swap::symmetry_token_swap::SymmetryTokenSwap;

struct Case {
    sell: bool,
    input: u64,
    decimals: u8,
    price: u64,
    fee_before: u8,
    fee_after: u8,
    use_curve: u8,
    start: u64,
    target: u64,
    amounts: [u64; 10],
    prices: [u64; 10],
    expected: Option<u64>,
}

const CASES: [Case; 60] = [
    Case { sell: true, input: 11882767918, decimals: 9, price: 60000000000000000, fee_before: 10, fee_after: 7, use_curve: 1, start: 51449630408, target: 49073999764, amounts: [0, 6008366, 0, 6077693178, 3053083405, 0, 5519526, 7153120102, 1044882, 1019779906], prices: [60685144684976694, 59810434739002527, 59135221921455207, 60929054573782629, 58507287522119420, 57542066915320196, 56627365502016916, 56365054412744221, 60753075317413504, 55177960791632726], expected: Some(686106091296618755) },
    Case { sell: false, input: 1140000000000000000, decimals: 0, price: 60000000000000000, fee_before: 10, fee_after: 0, use_curve: 1, start: 18, target: 5, amounts: [5, 6, 0, 1, 2, 5, 6, 6, 9, 7], prices: [60195077994696766, 61041566516246705, 61968655357627323, 62724478517641600, 63658319898994636, 64093312938850012, 64261455989953578, 64354317457801953, 65026826528843506, 59634182420297738], expected: Some(14) },
    Case { sell: true, input: 29057123641, decimals: 9, price: 60000000000000000, fee_before: 255, fee_after: 7, use_curve: 0, start: 50772653688, target: 43250800717, amounts: [7420968949, 0, 3086823829, 0, 6528166151, 8594500003, 2772968, 0, 0, 0], prices: [59565548229797168, 59263755603258111, 58303199320234100, 57886559836323646, 57246344903142600, 56833163964782152, 56609770048503272, 60736104836018788, 60883345630891767, 55894593836649230], expected: Some(1742207019267078000) },
    Case { sell: false, input: 236637123149, decimals: 9, price: 12345678901, fee_before: 10, fee_after: 10, use_curve: 1, start: 28849162218, target: 21504482194, amounts: [5011078742, 9286095, 0, 0, 1944598030, 5366167, 2771807854, 8720951, 3507382704, 8995668231], prices: [12469737058, 12657695012, 12882359479, 12926542880, 12962425228, 13174144654, 13356739654, 13447254106, 13544561951, 12190050261], expected: Some(17973498915) },
    Case { sell: true, input: 25665762138, decimals: 9, price: 60000000000000000, fee_before: 10, fee_after: 255, use_curve: 1, start: 48004915105, target: 36274539177, amounts: [1368090632, 9320787085, 0, 6847388055, 9110667174, 5735471, 0, 2257813230, 2220163, 0], prices: [58998253896575663, 58610426360336367, 57432957963923807, 57385747939068750, 57367712557793648, 56369379483904078, 55790398863405729, 60144906175372473, 55227069485402704, 54080477141320049], expected: Some(1404285650884889244) },
    Case { sell: false, input: 1731000000000000, decimals: 2, price: 100000000000000, fee_before: 10, fee_after: 30, use_curve: 0, start: 2469, target: 2640, amounts: [0, 991, 0, 7, 7, 3, 0, 4, 887, 280], prices: [100278844526875, 101647673988164, 98722483180700, 103170485010828, 104853048050565, 106515272453232, 99517075798475, 98573896985376, 108031611969704, 109972212517233], expected: Some(1720) },
    Case { sell: true, input: 31456542643, decimals: 9, price: 1000000000000, fee_before: 0, fee_after: 7, use_curve: 1, start: 19456968337, target: 19673903804, amounts: [6955034, 5578123471, 0, 6256851, 0, 0, 8023695, 0, 0, 5398297], prices: [985116260425, 983889061629, 971476486991, 962366228480, 949320474090, 945992648801, 940803264575, 932055151165, 930508248540, 916400409004], expected: Some(29183916371911) },
    Case { sell: false, input: 31204705300000, decimals: 9, price: 100000000000000, fee_before: 5, fee_after: 30, use_curve: 1, start: 11780470122, target: 20172975413, amounts: [2302608495, 1918019772, 6340395454, 3698595633, 0, 6469396498, 6754865709, 5630317774, 6274739, 8942290502], prices: [100317140348811, 102079030979058, 103738314002170, 104915661081926, 105521887001371, 105878935300806, 107283921542520, 107447521793357, 98970288085111, 108563311900522], expected: Some(299899718) },
    Case { sell: true, input: 20241947331, decimals: 9, price: 60000000000000000, fee_before: 5, fee_after: 7, use_curve: 1, start: 30424011456, target: 38733261481, amounts: [4748371, 0, 4862106672, 1819108, 0, 0, 6017626, 0, 9691010, 2890206], prices: [59728731305033469, 59019066657310295, 57864762675041197, 57675322361038579, 57561549679062084, 56441327195602549, 56035081428295591, 55106490790568139, 54272982274138764, 53984495004668453], expected: Some(1110982035598063699) },
    Case { sell: false, input: 371149659300000000, decimals: 9, price: 60000000000000000, fee_before: 30, fee_after: 10, use_curve: 0, start: 22938787675, target: 8806323462, amounts: [9284204, 9113945, 3881880, 0, 0, 4015782, 4999947220, 6710076, 2988389, 6057610303], prices: [60569488175323286, 61409404964510104, 62182752089268502, 62327749983938802, 63044822107133463, 63707844879540329, 64454680274992988, 64756352708123846, 65765136189538942, 59631047991616895], expected: Some(6167270168) },
    Case { sell: true, input: 33195219, decimals: 6, price: 100000000000000, fee_before: 10, fee_after: 255, use_curve: 1, start: 50499097, target: 45911867, amounts: [0, 0, 8430024, 0, 170, 227, 8497, 1964, 8007609, 0], prices: [99501116040781, 98620474883359, 97039360682279, 95535411074019, 95300405139829, 94083937969460, 92622954272207, 91715372959914, 101606774459869, 90661479021501], expected: Some(2964912360737544) },
    Case { sell: false, input: 29863737589000, decimals: 9, price: 1000000000000, fee_before: 0, fee_after: 10, use_curve: 1, start: 28060678011, target: 18311368131, amounts: [0, 6630154665, 8785891240, 0, 5092120307, 0, 0, 8424901185, 0, 3744322375], prices: [980126534359, 1001353959645, 1010714326496, 1029935457966, 990118498966, 1045814087326, 1065759064515, 1074168453869, 1083132239288, 1085468220619], expected: Some(28960141289) },
    Case { sell: true, input: 1074272305, decimals: 8, price: 3, fee_before: 0, fee_after: 0, use_curve: 1, start: 2370219057, target: 3738960721, amounts: [332924, 966562400, 769216, 457224, 0, 72909, 737616462, 519982265, 782646598, 709016453], prices: [3, 2, 1, 1, 3, 0, 0, 0, 4, 0], expected: Some(19) },
    Case { sell: false, input: 37240537510000, decimals: 8, price: 1000000000000, fee_before: 30, fee_after: 30, use_curve: 0, start: 4437253837, target: 4052179414, amounts: [195686778, 800475875, 111242, 958833390, 587628161, 745343138, 905478531, 0, 50491, 979217], prices: [1005508812520, 1018175546332, 993714384387, 980001078471, 1023977764090, 1040246663144, 983065887627, 1046888735494, 1055333004142, 1060919553066], expected: Some(3712881586) },
    Case { sell: true, input: 452, decimals: 2, price: 3, fee_before: 0, fee_after: 30, use_curve: 0, start: 1678, target: 776, amounts: [723, 7, 38, 0, 0, 7, 0, 802, 0, 6], prices: [3, 2, 1, 0, 0, 0, 0, 0, 0, 4], expected: Some(13) },
    Case { sell: false, input: 2065856986620000000, decimals: 9, price: 60000000000000000, fee_before: 10, fee_after: 30, use_curve: 0, start: 5733860586, target: 10212823042, amounts: [0, 68038, 0, 2803913, 1875588170, 1338656, 0, 0, 7463006738, 9753815], prices: [59303026191926063, 59520273928595143, 59530717639189974, 60399104177703069, 60676481029205366, 61308575904053997, 62126428006352494, 62302551514213036, 62319957357582068, 62881065351388311], expected: Some(34327656926) },
    Case { sell: true, input: 28551857857, decimals: 9, price: 1000000000000, fee_before: 0, fee_after: 7, use_curve: 0, start: 17686107104, target: 29058344152, amounts: [3792044, 8020691, 0, 0, 3602624982, 7817352676, 6885585807, 0, 4180169987, 4786928674], prices: [982391514543, 968689035204, 957963343279, 942982631441, 932452661863, 1006049838657, 1011765841813, 922306529536, 911612398131, 899619628617], expected: Some(28539832122437) },
    Case { sell: false, input: 1119000000000000000, decimals: 2, price: 60000000000000000, fee_before: 10, fee_after: 10, use_curve: 0, start: 3577, target: 2429, amounts: [457, 0, 0, 869, 7, 8, 0, 5, 131, 0], prices: [61196887778838086, 61718311450188223, 62854831947475822, 59025556913296815, 63920277175310045, 64977097568208399, 65759031459365222, 65999086203934435, 66287033965909926, 66647222493055831], expected: Some(1858) },
    Case { sell: true, input: 1623413189, decimals: 9, price: 12345678901, fee_before: 30, fee_after: 255, use_curve: 1, start: 30449745354, target: 38757363142, amounts: [2201635, 903973, 2129109, 0, 3054630103, 0, 9573067, 6282455931, 0, 7557963500], prices: [12154439175, 11932930308, 11726198432, 11587291267, 11501781192, 11336750881, 11327607097, 11203032994, 10978274427, 10792915846], expected: Some(18618424410) },
    Case { sell: false, input: 163332808020, decimals: 9, price: 12345678901, fee_before: 255, fee_after: 255, use_curve: 1, start: 12195089168, target: 5355055972, amounts: [5512480337, 4302659, 5198585559, 6147025, 8478030807, 0, 9169364, 6225184, 0, 5568923543], prices: [12246873766, 12416525964, 12593570546, 12655090971, 12316573900, 12728516416, 12886517975, 12119488092, 12927289220, 13141469473], expected: Some(12733422485) },
    Case { sell: true, input: 39188103, decimals: 6, price: 100000000000000, fee_before: 0, fee_after: 0, use_curve: 1, start: 57418638, target: 44878738, amounts: [2389, 67891, 4763, 0, 9678, 5988825, 7603, 4228393, 0, 0], prices: [98694141523281, 98558370814150, 97224364529098, 97024794862421, 96187607146279, 96034403304415, 95716034201215, 94897172418236, 94394789525732, 93261999342666], expected: Some(3654760836226327) },
    Case { sell: false, input: 197530862416, decimals: 0, price: 12345678901, fee_before: 30, fee_after: 30, use_curve: 0, start: 21, target: 14, amounts: [0, 0, 6, 3, 0, 0, 0, 8, 0, 9], prices: [12539806116, 12626988590, 12121556118, 12811831087, 13002391749, 13115023306, 13356844879, 12232646934, 12098933604, 13399341526], expected: Some(13) },
    Case { sell: true, input: 28359049999, decimals: 9, price: 100000000000000, fee_before: 5, fee_after: 255, use_curve: 1, start: 27436997778, target: 20392408885, amounts: [2815250, 0, 0, 5397643, 2903166, 8266464069, 2436297, 8776763210, 8271768, 9806362245], prices: [101601975854020, 99792401057382, 99765780477613, 98473581027460, 97316976532423, 100444251806852, 96916954159413, 95861786625119, 101662501498981, 94622426637463], expected: Some(2628828639100128) },
    Case { sell: false, input: 96790122583, decimals: 2, price: 12345678901, fee_before: 30, fee_after: 30, use_curve: 1, start: 4249, target: 3383, amounts: [9, 0, 3, 0, 829, 9, 560, 0, 54, 290], prices: [12324831706, 12502364032, 12618528685, 12853797081, 12262009745, 12981503705, 13080755517, 13226437112, 13411341190, 13605034109], expected: Some(749) },
    Case { sell: true, input: 583475019, decimals: 8, price: 12345678901, fee_before: 5, fee_after: 0, use_curve: 1, start: 872266406, target: 1567842762, amounts: [723257185, 3250352, 871325, 413808, 613532, 0, 692115807, 615425, 0, 327439], prices: [12274905171, 12062978365, 12425874868, 11856302393, 12423629662, 12452760378, 11616230084, 11551881411, 12489143801, 11348003758], expected: Some(71585194776) },
    Case { sell: false, input: 384745034233, decimals: 9, price: 12345678901, fee_before: 0, fee_after: 255, use_curve: 1, start: 11723388897, target: 8721994595, amounts: [5275150, 0, 968208256, 2954887, 0, 838473, 4168033, 5534202, 7163728, 0], prices: [12587827467, 12301301400, 12800360028, 13044719438, 13277531235, 13502710206, 13563692652, 12252083460, 13801723586, 13933366106], expected: Some(27063358947) },
    Case { sell: true, input: 27, decimals: 0, price: 3, fee_before: 5, fee_after: 255, use_curve: 1, start: 29, target: 25, amounts: [5, 9, 8, 0, 0, 0, 7, 2, 0, 2], prices: [3, 3, 2, 1, 3, 0, 0, 0, 0, 4], expected: Some(46) },
    Case { sell: false, input: 2874189183000000, decimals: 8, price: 100000000000000, fee_before: 10, fee_after: 10, use_curve: 1, start: 630396758, target: 1508153791, amounts: [954918778, 0, 91955529, 0, 0, 196967451, 0, 0, 727347, 176830321], prices: [99848372213607, 100548062054984, 100990762841534, 101637888230829, 102080573441860, 99156004493505, 103919426040736, 105429253186274, 106641182337827, 107053542210326], expected: Some(2701554700) },
    Case { sell: true, input: 23636052340, decimals: 9, price: 3, fee_before: 30, fee_after: 255, use_curve: 0, start: 0, target: 4097254621, amounts: [6133920, 0, 1886624550, 642921, 0, 5630967015, 5891701622, 0, 0, 0], prices: [2, 2, 1, 4, 0, 0, 0, 0, 0, 0], expected: Some(68) },
    Case { sell: false, input: 365562387060000000, decimals: 9, price: 60000000000000000, fee_before: 0, fee_after: 10, use_curve: 1, start: 24341835029, target: 16817689363, amounts: [0, 9599209390, 6380293, 2984921, 7030700843, 1234713708, 8997448180, 0, 0, 5487688773], prices: [59738373985028705, 60099992911636775, 61040129498944914, 61482409908051725, 62039673554244955, 62961052973882151, 58892306193472459, 63069419344453756, 59474377544894432, 58985811595902465], expected: Some(6082569553) },
    Case { sell: true, input: 3160, decimals: 2, price: 3, fee_before: 0, fee_after: 10, use_curve: 0, start: 2686, target: 2425, amounts: [0, 0, 0, 2, 783, 747, 4, 512, 683, 6], prices: [4, 3, 2, 1, 1, 0, 0, 0, 4, 0], expected: Some(92) },
    Case { sell: false, input: 362969465294, decimals: 9, price: 12345678901, fee_before: 10, fee_after: 10, use_curve: 1, start: 1416867587, target: 13850818149, amounts: [6400049, 7565398763, 0, 2143835, 7132348, 4429766606, 8350977, 8208232, 0, 6932755], prices: [12348099764, 12398347842, 12165564409, 12248274728, 12622466989, 12161447163, 12626031153, 12673090779, 12792935173, 12290096938], expected: Some(28344276815) },
    Case { sell: true, input: 467, decimals: 2, price: 1000000000000, fee_before: 30, fee_after: 0, use_curve: 1, start: 298, target: 902, amounts: [796, 272, 6, 0, 1, 344, 0, 8, 1, 0], prices: [989972613999, 974503024927, 1004268680668, 957667222279, 948224994773, 1013175571504, 939272437300, 931135751891, 929835504590, 916387610951], expected: Some(4609302591053) },
    Case { sell: false, input: 405908749425, decimals: 6, price: 12345678901, fee_before: 255, fee_after: 10, use_curve: 1, start: 27967072, target: 20620279, amounts: [3160, 6018, 5025, 6143880, 9411239, 0, 580, 4244512, 1074474, 7312], prices: [12581724674, 12781875488, 12796484651, 12845735162, 12983173653, 12174908163, 13133906700, 13252952931, 13303796178, 13503499616], expected: Some(30602230) },
    Case { sell: true, input: 1, decimals: 0, price: 100000000000000, fee_before: 0, fee_after: 0, use_curve: 0, start: 10, target: 7, amounts: [0, 1, 0, 2, 0, 8, 0, 7, 5, 4], prices: [99409308755521, 100139340015970, 97418881336127, 101498143760650, 101615033655237, 100096595585016, 96308385397741, 101924710289176, 101530027277923, 95277276021545], expected: Some(100000000000000) },
    Case { sell: false, input: 2280000000000000000, decimals: 0, price: 60000000000000000, fee_before: 10, fee_after: 255, use_curve: 1, start: 0, target: 11, amounts: [3, 8, 8, 2, 0, 3, 0, 1, 6, 1], prices: [60336541868739773, 59424348347829042, 61010247797229063, 61708656541580876, 62761765286290930, 63283538007806118, 64056270033570665, 64506519913500567, 64683398519052377, 64717621863349937], expected: Some(29) },
    Case { sell: true, input: 385734200, decimals: 8, price: 60000000000000000, fee_before: 10, fee_after: 255, use_curve: 1, start: 967996509, target: 1020085484, amounts: [807971, 316713403, 38760, 921423, 0, 0, 0, 221629692, 0, 142140], prices: [59086988052186283, 58080464902387727, 60377708760635432, 57952654473624654, 60919531784575023, 60380020232183860, 56818910287614367, 55888838309676918, 61032899166196306, 54963824020166497], expected: Some(217635139298728943) },
    Case { sell: false, input: 62, decimals: 9, price: 3, fee_before: 5, fee_after: 30, use_curve: 0, start: 61585864632, target: 46801559367, amounts: [8882073, 0, 0, 0, 6696068, 8459080967, 0, 9607677, 0, 1119235867], prices: [3, 3, 4, 5, 5, 5, 6, 3, 7, 8], expected: Some(20666666666) },
    Case { sell: true, input: 34990129, decimals: 6, price: 1000000000000, fee_before: 10, fee_after: 7, use_curve: 0, start: 28591173, target: 22290207, amounts: [0, 7942, 5329773, 1172778, 3530, 324575, 0, 3870, 0, 0], prices: [990293041168, 980088911780, 977696129224, 973401703961, 1012831258116, 964225643509, 950671809455, 949334600255, 937636994583, 935504975726], expected: Some(34965635909700) },
    Case { sell: false, input: 1301094097000000, decimals: 9, price: 100000000000000, fee_before: 255, fee_after: 30, use_curve: 0, start: 21933715924, target: 28244861947, amounts: [4099225252, 1890129042, 0, 2933262158, 9988835, 0, 0, 1958541069, 0, 3576295], prices: [98250876983867, 101554054800851, 99582764667617, 103226185232831, 104007698719600, 98863986893858, 105392364499238, 105529700207091, 106639857389397, 98176269346165], expected: Some(12971908144) },
    Case { sell: true, input: 1772, decimals: 2, price: 60000000000000000, fee_before: 30, fee_after: 10, use_curve: 1, start: 5560, target: 4160, amounts: [560, 2, 910, 4, 2, 138, 0, 8, 0, 3], prices: [59383668535402272, 58715224987432909, 57580613915475221, 60851960883886402, 57200314221075717, 57122136987039647, 56588762458250443, 55922868149522622, 54996812988548818, 54494928520163424], expected: Some(970817355701542619) },
    Case { sell: false, input: 108672292106, decimals: 8, price: 12345678901, fee_before: 0, fee_after: 30, use_curve: 0, start: 5431089732, target: 4983339408, amounts: [746297269, 0, 406025512, 0, 0, 323605857, 0, 622198, 507537, 390731055], prices: [12420192583, 12182988745, 12110683841, 12465988776, 12476557550, 12710775682, 12253401882, 12267443810, 12823026741, 12997269501], expected: Some(878948088) },
    Case { sell: true, input: 1356, decimals: 2, price: 60000000000000000, fee_before: 10, fee_after: 255, use_curve: 1, start: 1418, target: 1489, amounts: [861, 252, 0, 563, 0, 337, 467, 0, 0, 116], prices: [61184878782923413, 59602831000847963, 60396366753855815, 58922741246199627, 58559123319430088, 57386592160538441, 60393422708514258, 60990096746488430, 56233392603694364, 55997914636689685], expected: Some(790370569768966710) },
    Case { sell: false, input: 492063625191, decimals: 6, price: 12345678901, fee_before: 255, fee_after: 10, use_curve: 1, start: 22010505, target: 15038977, amounts: [0, 3721, 0, 5045911, 0, 0, 1502950, 1020330, 0, 2554076], prices: [12491769137, 12524316344, 12229397236, 12756732172, 12318730647, 12870821085, 13094586155, 13118019087, 13299344141, 13327090992], expected: Some(36968379) },
    Case { sell: true, input: 14447596883, decimals: 9, price: 1000000000000, fee_before: 0, fee_after: 10, use_curve: 1, start: 31465648649, target: 43226121358, amounts: [0, 7560986, 6146560, 0, 9512233631, 9271789231, 2136890, 4661983576, 6691715, 6157146222], prices: [1000184292013, 1004862305846, 999197711853, 1016594910205, 1006637879209, 986003973799, 975296502973, 971516796420, 960753826797, 950120105988], expected: Some(14368427262066) },
    Case { sell: false, input: 872984675400000000, decimals: 8, price: 60000000000000000, fee_before: 5, fee_after: 7, use_curve: 0, start: 2880083124, target: 4194922137, amounts: [596765, 963056, 243511, 0, 409903, 503396, 0, 176128899, 261093, 0], prices: [61187016881641361, 62071170242173693, 59464623382017919, 59000956017925799, 62616228760325418, 63541642723488619, 63985231057202465, 65111692661132436, 59533553067370866, 65761591929389593], expected: Some(1453955976) },
    Case { sell: true, input: 2061640368, decimals: 8, price: 3, fee_before: 10, fee_after: 30, use_curve: 0, start: 886512341, target: 1541429663, amounts: [0, 0, 0, 188404804, 0, 433628, 0, 457418, 0, 268170], prices: [3, 3, 2, 2, 1, 0, 4, 0, 0, 0], expected: Some(60) },
    Case { sell: false, input: 105, decimals: 0, price: 3, fee_before: 255, fee_after: 30, use_curve: 1, start: 44, target: 42, amounts: [9, 0, 9, 9, 7, 7, 0, 4, 9, 3], prices: [4, 4, 3, 4, 5, 6, 7, 2, 7, 8], expected: Some(26) },
    Case { sell: true, input: 26016125, decimals: 6, price: 3, fee_before: 255, fee_after: 10, use_curve: 1, start: 8924984, target: 22585457, amounts: [597, 4862454, 7901, 4156942, 0, 0, 0, 3938260, 0, 0], prices: [3, 3, 2, 1, 0, 0, 0, 0, 0, 0], expected: Some(18) },
    Case { sell: false, input: 87, decimals: 0, price: 3, fee_before: 0, fee_after: 255, use_curve: 1, start: 47, target: 42, amounts: [6, 7, 1, 5, 0, 7, 2, 7, 2, 5], prices: [4, 5, 6, 3, 7, 8, 8, 9, 10, 11], expected: Some(17) },
    Case { sell: true, input: 5586884456, decimals: 9, price: 60000000000000000, fee_before: 255, fee_after: 10, use_curve: 1, start: 44017625040, target: 45909817502, amounts: [0, 0, 0, 9077491, 1164546760, 6901483, 5931165227, 0, 1743771, 0], prices: [60770974162850711, 59774282381559239, 60211082382587539, 60627116442161452, 59135547918291905, 58517879145226952, 58222126263600607, 57574941641939694, 60226442500197416, 56626038181077502], expected: Some(323308225740950178) },
    Case { sell: false, input: 322809795681, decimals: 9, price: 12345678901, fee_before: 255, fee_after: 0, use_curve: 0, start: 17486533328, target: 4653332285, amounts: [0, 7836494, 0, 0, 7320685, 7347798533, 3833756077, 0, 0, 158948], prices: [12221931504, 12582186002, 12598889165, 12748587660, 12928120327, 13008428014, 13135398910, 13348480056, 13593978256, 13743780917], expected: Some(25813066292) },
    Case { sell: true, input: 14901678388, decimals: 9, price: 1000000000000, fee_before: 5, fee_after: 10, use_curve: 1, start: 32009271326, target: 23001192614, amounts: [0, 0, 6046654, 0, 427026507, 0, 0, 0, 0, 5180000554], prices: [996240913396, 983577681673, 976107646560, 964496787264, 959262252858, 941400306609, 1004406157255, 1005246285683, 922121012230, 1017302785181], expected: Some(13727409608309) },
    Case { sell: false, input: 28000000000000, decimals: 2, price: 1000000000000, fee_before: 10, fee_after: 30, use_curve: 1, start: 1841, target: 2391, amounts: [0, 4, 0, 25, 0, 237, 0, 84, 329, 0], prices: [1008918119292, 1016010911180, 990641856639, 1028634341371, 1043621112530, 1053325590175, 1063856669450, 1078481580888, 1087126975643, 1103913368116], expected: Some(2530) },
    Case { sell: true, input: 380, decimals: 2, price: 3, fee_before: 255, fee_after: 255, use_curve: 1, start: 2415, target: 3099, amounts: [3, 2, 93, 0, 0, 0, 0, 0, 0, 983], prices: [3, 2, 2, 2, 2, 4, 1, 3, 0, 0], expected: Some(1) },
    Case { sell: false, input: 163114480380, decimals: 8, price: 12345678901, fee_before: 10, fee_after: 10, use_curve: 0, start: 1386624592, target: 1131974488, amounts: [0, 968394, 0, 417767749, 42216, 445460432, 0, 217998023, 513966664, 0], prices: [12447759096, 12330567358, 12474849159, 12480828640, 12642960790, 12792308850, 12149932910, 12246172374, 12905788386, 13027199719], expected: Some(1319906072) },
    Case { sell: true, input: 2859299116, decimals: 9, price: 60000000000000000, fee_before: 30, fee_after: 0, use_curve: 1, start: 0, target: 7540670084, amounts: [3791147, 5742646404, 0, 0, 714493, 7976329, 0, 911267, 0, 5945635930], prices: [59090087405207658, 59054055436654540, 58476075093981666, 57930654126655457, 60183744889809757, 57905040598821628, 57882245985831732, 57086590965831528, 56779895949005977, 56119384622344628], expected: Some(168346785073404612) },
    Case { sell: false, input: 506539415400000000, decimals: 9, price: 60000000000000000, fee_before: 0, fee_after: 7, use_curve: 1, start: 38685783452, target: 37552723995, amounts: [3885539037, 0, 0, 0, 8417610, 0, 4950506666, 2481266665, 5820541, 9531170], prices: [59787210540159969, 59269381752223321, 60468576472162934, 61291720391377173, 61694617864210585, 62416003875981252, 59328607031740540, 63182506302840343, 64291318985106296, 59868731111263307], expected: Some(8261043397) },
    Case { sell: true, input: 20609528, decimals: 6, price: 1000000000000, fee_before: 5, fee_after: 10, use_curve: 1, start: 28336428, target: 36465742, amounts: [2893636, 1875, 202, 3270, 0, 9002, 0, 0, 0, 2459422], prices: [990594573485, 973830668866, 1002083124796, 971774427353, 1006995624508, 956855016964, 951165766203, 938737819238, 937283043638, 931153813321], expected: Some(19347601296796) },
    Case { sell: false, input: 50, decimals: 8, price: 3, fee_before: 0, fee_after: 0, use_curve: 0, start: 1284533123, target: 701286479, amounts: [0, 28647, 473299, 0, 327856, 364798890, 936743891, 724289, 757238, 0], prices: [4, 4, 5, 6, 7, 8, 8, 8, 9, 10], expected: Some(1666666666) },
];

fn run(case: &Case) -> Option<u64> {
    let settings = TokenSettings {
        token_swap_fee_after_tw_bps: case.fee_after,
        token_swap_fee_before_tw_bps: case.fee_before,
        use_curve_data: case.use_curve,
        decimals: case.decimals,
        token_mint: Address::new([1; 32]),
        ..TokenSettings::empty()
    };
    let price = OraclePrice {
        sell_price: case.price,
        avg_price: case.price,
        buy_price: case.price,
        oracle_live: 1,
    };
    let curve = TokenPriceData { amount: case.amounts, price: case.prices };
    let result = if case.sell {
        SymmetryTokenSwap::compute_value_of_sold_token(
            case.input,
            settings,
            price,
            case.start,
            case.target,
            curve,
        )
    } else {
        SymmetryTokenSwap::compute_amount_of_bought_token(
            case.input,
            settings,
            price,
            case.start,
            case.target,
            curve,
        )
    };
    result.ok()
}

#[test]
fn walkers_agree_with_the_table() {
    for (i, case) in CASES.iter().enumerate() {
        assert_eq!(run(case), case.expected, "case {}", i);
    }
}
