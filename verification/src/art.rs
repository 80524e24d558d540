//! Fifteen-row ASCII-art pictures of the 46 basic kana, hiragana and
//! katakana, for the flashcard renderer. A character without a picture gets
//! a boxed fallback frame with the character in its middle. The two spec
//! tables `hiragana_art` / `katakana_art` fix every row of every picture.

use vstd::prelude::*;

use crate::text::str_eq;

verus! {

/// The hiragana that have a hand-drawn picture: the 46 basic kana.
pub open spec fn known_hiragana(c: Seq<char>) -> bool {
    c == "あ"@
        || c == "い"@
        || c == "う"@
        || c == "え"@
        || c == "お"@
        || c == "か"@
        || c == "き"@
        || c == "く"@
        || c == "け"@
        || c == "こ"@
        || c == "さ"@
        || c == "し"@
        || c == "す"@
        || c == "せ"@
        || c == "そ"@
        || c == "た"@
        || c == "ち"@
        || c == "つ"@
        || c == "て"@
        || c == "と"@
        || c == "な"@
        || c == "に"@
        || c == "ぬ"@
        || c == "ね"@
        || c == "の"@
        || c == "は"@
        || c == "ひ"@
        || c == "ふ"@
        || c == "へ"@
        || c == "ほ"@
        || c == "ま"@
        || c == "み"@
        || c == "む"@
        || c == "め"@
        || c == "も"@
        || c == "や"@
        || c == "ゆ"@
        || c == "よ"@
        || c == "ら"@
        || c == "り"@
        || c == "る"@
        || c == "れ"@
        || c == "ろ"@
        || c == "わ"@
        || c == "を"@
        || c == "ん"@
}

/// The katakana that have a hand-drawn picture: the 46 basic kana.
pub open spec fn known_katakana(c: Seq<char>) -> bool {
    c == "ア"@
        || c == "イ"@
        || c == "ウ"@
        || c == "エ"@
        || c == "オ"@
        || c == "カ"@
        || c == "キ"@
        || c == "ク"@
        || c == "ケ"@
        || c == "コ"@
        || c == "サ"@
        || c == "シ"@
        || c == "ス"@
        || c == "セ"@
        || c == "ソ"@
        || c == "タ"@
        || c == "チ"@
        || c == "ツ"@
        || c == "テ"@
        || c == "ト"@
        || c == "ナ"@
        || c == "ニ"@
        || c == "ヌ"@
        || c == "ネ"@
        || c == "ノ"@
        || c == "ハ"@
        || c == "ヒ"@
        || c == "フ"@
        || c == "ヘ"@
        || c == "ホ"@
        || c == "マ"@
        || c == "ミ"@
        || c == "ム"@
        || c == "メ"@
        || c == "モ"@
        || c == "ヤ"@
        || c == "ユ"@
        || c == "ヨ"@
        || c == "ラ"@
        || c == "リ"@
        || c == "ル"@
        || c == "レ"@
        || c == "ロ"@
        || c == "ワ"@
        || c == "ヲ"@
        || c == "ン"@
}

/// The boxed frame drawn for a character without a picture.
pub open spec fn fallback_art(c: Seq<char>) -> Seq<Seq<char>> {
    seq![
        "  \u{2554}\u{2550}\u{2550}\u{2550}\u{2550}\u{2550}\u{2550}\u{2550}\u{2550}\u{2550}\u{2550}\u{2550}\u{2550}\u{2550}\u{2550}\u{2550}\u{2557}   "@,
        "  \u{2551}               \u{2551}   "@,
        "  \u{2551}               \u{2551}   "@,
        "  \u{2551}       "@ + c + "       \u{2551}   "@,
        "  \u{2551}               \u{2551}   "@,
        "  \u{2551}               \u{2551}   "@,
        "  \u{255a}\u{2550}\u{2550}\u{2550}\u{2550}\u{2550}\u{2550}\u{2550}\u{2550}\u{2550}\u{2550}\u{2550}\u{2550}\u{2550}\u{2550}\u{2550}\u{255d}   "@,
        "                      "@,
        "                      "@,
    ]
}

/// Every row of the picture drawn for `c` as a hiragana: the hand-drawn
/// block for each of the 46 basic kana, the fallback frame for the rest.
pub open spec fn hiragana_art(c: Seq<char>) -> Seq<Seq<char>> {
    if c == "あ"@ {
        seq![
            "                                                  "@,
            "                                                  "@,
            "                   -##+                           "@,
            "                   *@@-    ...''',,.              "@,
            "            +******%%@######****#**;              "@,
            "            ',,,,':@@%.     :;:,                  "@,
            "                  :@%%-==+++@@@@+=-;,.            "@,
            "              ';+#%%%@=;:,:%%@+:;-=*%@*-'         "@,
            "            ;#@#-,.+@%-  .+@@-       ;@@%;        "@,
            "          .*@%:    .#%@;-%@*,         +%%@        "@,
            "          -@%;      -@@@@#,          ;%@@=        "@,
            "          .+%%=-=+*##+=#+:  ',,:;-=*%@#=,         "@,
            "            .:---;:'        '=##*+=;:.            "@,
            "                                                  "@,
            "                                                  "@,
        ]
    } else if c == "い"@ {
        seq![
            "                                                  "@,
            "                                                  "@,
            "                                                  "@,
            "           ++=;                  .                "@,
            "          ,@@@:                ;*@#='             "@,
            "          ;%%%.                 '-%@@*,           "@,
            "          -@@#                    .=@@@+.         "@,
            "          -%@#                      ;%%@#'        "@,
            "          ;@%%.      '.              ;@@@%.       "@,
            "          .@@%-     -@@#'             ;;:,.       "@,
            "           :#@@*--=%@%='                          "@,
            "             ,-+***=:.                            "@,
            "                                                  "@,
            "                                                  "@,
            "                                                  "@,
        ]
    } else if c == "う"@ {
        seq![
            "                                                  "@,
            "                                                  "@,
            "                 .***+=--;:,,''..                 "@,
            "                 ';-==+**###%%%%*                 "@,
            "                                                  "@,
            "                 .',,:;-=++**+=-:'                "@,
            "             ,#%%%%%##*++=---=*@@@*:              "@,
            "              ':,'.            .+%@@,             "@,
            "                                =%%@:             "@,
            "                              .-@@@=              "@,
            "                           ';*@@%+,               "@,
            "                    ,;-=*#@@@#=:.                 "@,
            "                    ,+#*=-:'.                     "@,
            "                                                  "@,
            "                                                  "@,
        ]
    } else if c == "え"@ {
        seq![
            "                                                  "@,
            "                                                  "@,
            "                 :,,'''.....                      "@,
            "                '**############,                  "@,
            "                                                  "@,
            "            .::::;;;---=---==+*#='                "@,
            "            .+*++++==-;;;=#@@%+;,.                "@,
            "                      ,-**=:.                     "@,
            "                  '-#@@@%+=-;'                    "@,
            "               ,=%@%+;,'',=@@#                    "@,
            "           .,=%@#-,       '@%*                    "@,
            "          :*@#-'          .+%@*+++++++++:         "@,
            "            .               .'::::::::::.         "@,
            "                                                  "@,
            "                                                  "@,
        ]
    } else if c == "お"@ {
        seq![
            "                                                  "@,
            "                                                  "@,
            "                  -+=:                            "@,
            "                  #@@'          .:;'              "@,
            "          .,,,,,::#%%+=++*#*    :+%@%*-,.         "@,
            "          '****+++%@@=;;:,'.       ';+%@*,        "@,
            "                  *@@.      ...        '          "@,
            "                .:#%%*************+=:'            "@,
            "            ';+##*%%@;'..       .';+@@*:          "@,
            "          '+@%=,. *@%'              .#@@:         "@,
            "         .%@#     #@@,   '-+-.      ,%@%,         "@,
            "          +%%-:::+@%+    .;*%%#*++*#%*='          "@,
            "           ':=+++-:'         .,,::,'              "@,
            "                                                  "@,
            "                                                  "@,
        ]
    } else if c == "か"@ {
        seq![
            "                                                  "@,
            "                                                  "@,
            "                  .,''.                           "@,
            "                  *@@+'                           "@,
            "                 =@%+          .,;,               "@,
            "        .::::;;:=@@@+=+++-;'   '=%@#-'            "@,
            "        '*++++-#@@#:;;::;#@%;     ;#@%='          "@,
            "              :%@#.      ,%@%       -@@%;         "@,
            "             =@@*.       '@%%.       ,#@@*.       "@,
            "           '*@@=         ;%%#         '=;:.       "@,
            "          -%@#:  '--'   ,%@@:                     "@,
            "        :#@@=.   :+%%%#%@%+,                      "@,
            "        '','        .',,.                         "@,
            "                                                  "@,
            "                                                  "@,
        ]
    } else if c == "き"@ {
        seq![
            "                                                  "@,
            "                                                  "@,
            "                      ;+==                        "@,
            "                      '%@@'  ..'',:.              "@,
            "            =++++++++++%@@%******++,              "@,
            "            ',,,,,'''''.:#@%:     .',:;:          "@,
            "           ;;;;;;-----===#@@@##***##**+=.         "@,
            "           ;===--;;;::::,,''-#%#-'                "@,
            "                 ',:;;;------=*@@@#=,             "@,
            "             '=#%#+-;;:::::::::;;-=:.             "@,
            "             *@@-                                 "@,
            "             '+%%*=--;;;;;;;;;;;;:                "@,
            "               .,;-=+++++++++++++:                "@,
            "                                                  "@,
            "                                                  "@,
        ]
    } else if c == "く"@ {
        seq![
            "                                                  "@,
            "                                                  "@,
            "                            '=-,.                 "@,
            "                         .;#@@*;'                 "@,
            "                      ';*@@*;.                    "@,
            "                   ,=#@%+:.                       "@,
            "               .:=#@#=,                           "@,
            "              '%@@#'                              "@,
            "               '-*%%*-,                           "@,
            "                  .:=%@%*-'                       "@,
            "                      ';*@@%+:.                   "@,
            "                         .:+%@@*:                 "@,
            "                             :=;'                 "@,
            "                                                  "@,
            "                                                  "@,
        ]
    } else if c == "け"@ {
        seq![
            "                                                  "@,
            "                                                  "@,
            "                               :--,               "@,
            "            +%#+.              *@@;               "@,
            "           ,@@@,               +%%,               "@,
            "           =%%*     ========+++%@@#*****#*        "@,
            "           *@@;     ------;;;;:#@@-,,''...        "@,
            "           #@@:                +@%:               "@,
            "           #@@;                #%@,               "@,
            "           +%%+               =%@*                "@,
            "           ,@@@'            '+@@+.                "@,
            "            ::,.          ,+@@#;                  "@,
            "                          ',;:                    "@,
            "                                                  "@,
            "                                                  "@,
        ]
    } else if c == "こ"@ {
        seq![
            "                                                  "@,
            "                                                  "@,
            "                                                  "@,
            "              .====================.              "@,
            "              .--------------------.              "@,
            "                                                  "@,
            "                                                  "@,
            "                                                  "@,
            "            '#**'                                 "@,
            "            ;@@@'                                 "@,
            "             ;*%@#**++++++++++++++++++'           "@,
            "               .',::::::::::::::::::::.           "@,
            "                                                  "@,
            "                                                  "@,
            "                                                  "@,
        ]
    } else if c == "さ"@ {
        seq![
            "                                                  "@,
            "                                                  "@,
            "                      -++=                        "@,
            "                      .%@@;                       "@,
            "            ''''''',,,,;@@@-:;---=++*,            "@,
            "            ;********+++++@@@*----;;:'            "@,
            "                          '+%%-'                  "@,
            "                   .'''''''':*@@#=,.              "@,
            "              .;+##**+++++++++*#@@@@*;            "@,
            "             ;%@#,.             .',;:.            "@,
            "             -@@*.                                "@,
            "              ,=#@#*+=-;;;;;;;;:;'                "@,
            "                 .,;-==++++++++++'                "@,
            "                                                  "@,
            "                                                  "@,
        ]
    } else if c == "し"@ {
        seq![
            "                                                  "@,
            "                                                  "@,
            "               .'''.                              "@,
            "               -@@@.                              "@,
            "               -%%%.                              "@,
            "               -@%%.                              "@,
            "               -@%%.                              "@,
            "               -@%%.                              "@,
            "               -%%%.                              "@,
            "               ;@%%.               ';**:          "@,
            "               .#@@#:.       .':-+%@@#=,          "@,
            "                 :=#%%#######%%#*+;,.             "@,
            "                     .''',,''.                    "@,
            "                                                  "@,
            "                                                  "@,
        ]
    } else if c == "す"@ {
        seq![
            "                                                  "@,
            "                                                  "@,
            "                         -##;                     "@,
            "                         +@@:                     "@,
            "       .------========+++#%%#+********#*#=        "@,
            "       .==-----;;:::::::,*@@=''''''......         "@,
            "                 :=++==++%%@:                     "@,
            "               =@@+'    '#%@+                     "@,
            "               -%@+,''',;#%%%.                    "@,
            "                .:=+++=-=%%@*                     "@,
            "                       ,*@%=                      "@,
            "                  ',-*%@#-'                       "@,
            "                 .;*#=:.                          "@,
            "                                                  "@,
            "                                                  "@,
        ]
    } else if c == "せ"@ {
        seq![
            "                                                  "@,
            "                                                  "@,
            "                              ....                "@,
            "               ';;:           +%%-                "@,
            "               -@@=           =@@:                "@,
            "            ...=%%=''',,,,,:::*%%+;;------        "@,
            "       ;#####**#@@#**++++++++=#@%*--------        "@,
            "        ...    -@@-           =%@:                "@,
            "               -@@=    '-----=%@@:                "@,
            "               -%%-    .======-:'                 "@,
            "               ;@@*'                              "@,
            "                ;*#%################-             "@,
            "                   .................              "@,
            "                                                  "@,
            "                                                  "@,
        ]
    } else if c == "そ"@ {
        seq![
            "                                                  "@,
            "                                                  "@,
            "                .....'',,,,::-=:'                 "@,
            "               '####**+==+%@@@@#='                "@,
            "                      ';+#%*-,.                   "@,
            "                  .:=*#+-,         ....'.         "@,
            "         '',,::-+%@@@#=--=+*##########*#=         "@,
            "         =#***++=-;;::-*@@#+-:,'...               "@,
            "                    ,+%#;.                        "@,
            "                   ,@@@:                          "@,
            "                   .*@@#:.                        "@,
            "                     :=#@@%#**++==.               "@,
            "                        .',;--=++:                "@,
            "                                                  "@,
            "                                                  "@,
        ]
    } else if c == "た"@ {
        seq![
            "                                                  "@,
            "                                                  "@,
            "                 ,;::.                            "@,
            "                 %@@=                             "@,
            "                :@%%'',,:;'                       "@,
            "        .*******%%@#**+++=:                       "@,
            "         ..... ;@@*         .',::;----=:          "@,
            "              .#%@'      =####**++===--;          "@,
            "              *@@-       .'.                      "@,
            "             +@@+                                 "@,
            "            +@@+       .,.                        "@,
            "          ,%@@=        -*###***+++++++++-         "@,
            "          ',::            .',,:;;;;;;;;;:         "@,
            "                                                  "@,
            "                                                  "@,
        ]
    } else if c == "ち"@ {
        seq![
            "                                                  "@,
            "                                                  "@,
            "                   '-;:.                          "@,
            "                   +@@=                           "@,
            "          ,,,:::::-@%@=-==++****.                 "@,
            "          =+++++=+@%%-;;;:::,,''                  "@,
            "                 =%@;                             "@,
            "                -@%= ',:;-==++===-:'              "@,
            "              .-@@@###*+-;;:::::;=#@%+'           "@,
            "             .-%%*-:'              :@@@.          "@,
            "                .                .,+@@*.          "@,
            "                     :----===++*#%%#+:            "@,
            "                     '=====--;;:,'.               "@,
            "                                                  "@,
            "                                                  "@,
        ]
    } else if c == "つ"@ {
        seq![
            "                                                  "@,
            "                                                  "@,
            "                                                  "@,
            "                     ..',,::::::,,.               "@,
            "         ..',:;=+**####***+++++**#%%#=:           "@,
            "         -%@%#*+=;:'.             .:+@@%:         "@,
            "          ''                         -%%@'        "@,
            "                                     ;%@@'        "@,
            "                                  .,+@@#:         "@,
            "                    ....'',,:;-=+#%%#=:           "@,
            "                    =#######**+=-:'.              "@,
            "                                                  "@,
            "                                                  "@,
            "                                                  "@,
            "                                                  "@,
        ]
    } else if c == "て"@ {
        seq![
            "                                                  "@,
            "                                                  "@,
            "                                                  "@,
            "                ...''',,,,,:;--==++***#*          "@,
            "         -########***++*%@@@%#+-;::,,'''          "@,
            "         .,'''..     :+%#+:'                      "@,
            "                   .*@@-.                         "@,
            "                   *@%;                           "@,
            "                   #@%;                           "@,
            "                   '*@@='                         "@,
            "                     ,=%@%*+-;:,,'''.             "@,
            "                        .,;=+**####*.             "@,
            "                                                  "@,
            "                                                  "@,
            "                                                  "@,
        ]
    } else if c == "と"@ {
        seq![
            "                                                  "@,
            "                                                  "@,
            "                   ,:::                           "@,
            "                   =@@%                           "@,
            "                   :%%%                           "@,
            "                   '@%@'         .',              "@,
            "                    +%%*,:;=+*#%%%%%+.            "@,
            "                 .,-*@@%%#*+=;:,'..               "@,
            "              :=#@%*=:'.                          "@,
            "            :#@@=,                                "@,
            "            +@@%'                                 "@,
            "             -*%@#**++++++++++++++++:             "@,
            "               .',::;;;;;;;;;;;;;;;;'             "@,
            "                                                  "@,
            "                                                  "@,
        ]
    } else if c == "な"@ {
        seq![
            "                                                  "@,
            "                                                  "@,
            "                  '+=-.                           "@,
            "                  #@%:                            "@,
            "         ';;----;*@@%=+**#,   ;#**=-;,'.          "@,
            "         '====-+@@@-:::,''.   ..,:-+*##%+.        "@,
            "              .*@%,           :::.     .          "@,
            "             -@@*'           .@@@'                "@,
            "           ,*@%-              #%%                 "@,
            "         '+@@*'     ,;=++++++=%%%;'.              "@,
            "         ':;:     :#@#:,''''';%@@*####+=:         "@,
            "                  ;@@#:,''',;#@%;  .':--'         "@,
            "                   .:-++****+-:.                  "@,
            "                                                  "@,
            "                                                  "@,
        ]
    } else if c == "に"@ {
        seq![
            "                                                  "@,
            "                                                  "@,
            "            .                                     "@,
            "           #%#=.                                  "@,
            "          ;@@@'      ,==++++***********.          "@,
            "          *%%+       ';;::::,,,,'''''''           "@,
            "         .%%@:                                    "@,
            "         ,@%@'                                    "@,
            "         ,@%@.                                    "@,
            "         '@%%'      .=%*-:'.                      "@,
            "         .%@@:       ':-+###############*.        "@,
            "          #%%-             ..''',,,,,,,,,         "@,
            "          ...                                     "@,
            "                                                  "@,
            "                                                  "@,
        ]
    } else if c == "ぬ"@ {
        seq![
            "                                                  "@,
            "                                                  "@,
            "                         ,,''                     "@,
            "            ,::,         #@@+                     "@,
            "           .@@@=        '%%%,                     "@,
            "            =%%# .,;-+**#%@%*###**+=:'            "@,
            "            .%@%###*=;,=@@%'....':-*@@#=.         "@,
            "          .;*@%@@+    ,%@#'         .+@@%.        "@,
            "         ;%@*:.-%@#:.-@@+.           '%%@;        "@,
            "        ;@@-    .-%@%@%;   .:--===-;,;%%%.        "@,
            "        =@@:    .:%@#%%-  +@@;,',,:=%@@@%:.       "@,
            "         -#@*+*#%#=, ''   ;#%+----=*%*-;#%=.      "@,
            "           ',::,.           .,:;;;:'.             "@,
            "                                                  "@,
            "                                                  "@,
        ]
    } else if c == "ね"@ {
        seq![
            "                                                  "@,
            "                                                  "@,
            "               -==,                               "@,
            "               #@@,                               "@,
            "               *%%:.        ..''''.               "@,
            "       '::;--==%@%%=..,;=+********#%*=,           "@,
            "       :*+==-::#%%+=*#*+-:'.       :@@@:          "@,
            "             .=%%%*=:.              =%%*          "@,
            "           :*@@%%@,                 =@%*          "@,
            "       .,=%@*:.*@@,      :=**+++++=-#%@=          "@,
            "       :*#-'   *%%,     #@%,    .';%@@%%#*;       "@,
            "               #@@,     ;*#+----=+##+:.';-'       "@,
            "               -=='       .,:::::,.               "@,
            "                                                  "@,
            "                                                  "@,
        ]
    } else if c == "の"@ {
        seq![
            "                                                  "@,
            "                                                  "@,
            "                                                  "@,
            "                ':-+***##**####*+-:'              "@,
            "            ';*%%#+-:':@%*='.',;=*@@#=,           "@,
            "          :*@@*:.     =%%@,       .;%@@+'         "@,
            "         +@@#'       '@%@-          .#%@#.        "@,
            "        =@%%.        #%@*            +%%@'        "@,
            "        +@%#       .*@@*            :%@@+         "@,
            "        .*@@*,   '-%@@=          '-#@@#;          "@,
            "          :+%@%#%@@#='    .,:;=#%@@#=,            "@,
            "            .':::,.       '-#%*=;,.               "@,
            "                                                  "@,
            "                                                  "@,
            "                                                  "@,
        ]
    } else if c == "は"@ {
        seq![
            "                                                  "@,
            "                                                  "@,
            "                             .:::'                "@,
            "           *##-              '@@@,                "@,
            "          -@@#             ...#%%;''''',,'        "@,
            "          #%%;    .*########**%@@%*******=        "@,
            "         '@%@'     ''.....    ;@@*                "@,
            "         :%%%.                :@@#                "@,
            "         ;@@%            .... ;@@*                "@,
            "         ;%%%       ,=*#******#%%%-;,.            "@,
            "         :@%@.     :@@*.     .+@@#=*#%%*=;.       "@,
            "         .%%%;     .-##*====+#%#=.   .,;+-.       "@,
            "          ..          .,:;;;:,.                   "@,
            "                                                  "@,
            "                                                  "@,
        ]
    } else if c == "ひ"@ {
        seq![
            "                                                  "@,
            "                                                  "@,
            "                    .                             "@,
            "         ,;--=+++*#%@=.       -+++                "@,
            "         :*+=-;-#@@+,.        :@@@-               "@,
            "              :#@*,            %%%@;              "@,
            "            .*@@-              #@%%@*,            "@,
            "            *@%;               #@%,-@@*:          "@,
            "           :@%%               '%%@. '=@@%=.       "@,
            "           ,@@%:             .*@@=    .;;'        "@,
            "            :#@@*;'.     .':=@@%-                 "@,
            "              ,-*#%%#####%%%*=:.                  "@,
            "                   .'''''.                        "@,
            "                                                  "@,
            "                                                  "@,
        ]
    } else if c == "ふ"@ {
        seq![
            "                                                  "@,
            "                                                  "@,
            "                   ::'.                           "@,
            "                  ;*%%%#*+=;:,                    "@,
            "                      ',;=+**,                    "@,
            "                 '-;:.                            "@,
            "                .%@@@-'                           "@,
            "                 .:-+#%%#+-,.    '-*=,            "@,
            "              ,-=:.   .';+%@%*:  .:+%@%=,         "@,
            "          '-*@@%+;.        ;@@@-     :*@@#-.      "@,
            "       '=%@%*;'   '.       :@%@=       '=+;.      "@,
            "        ':,      -%%%##***%@%#-                   "@,
            "                   ',:;;;;:,'                     "@,
            "                                                  "@,
            "                                                  "@,
        ]
    } else if c == "へ"@ {
        seq![
            "                                                  "@,
            "                                                  "@,
            "                                                  "@,
            "                                                  "@,
            "                 ,-*#%#*=:.                       "@,
            "             '-*@@%+-;;+%@@#=:.                   "@,
            "        ',-*%@@*-'       ';+%@@%+;'               "@,
            "       '=%@*-,               ':+#@@@*=:'          "@,
            "          .                      .:=#@@@%+,       "@,
            "                                     .,;'         "@,
            "                                                  "@,
            "                                                  "@,
            "                                                  "@,
            "                                                  "@,
            "                                                  "@,
        ]
    } else if c == "ほ"@ {
        seq![
            "                                                  "@,
            "                                                  "@,
            "           ''..                                   "@,
            "          ,@@@-    ,++++++**********#*#+          "@,
            "          +%%*     '::::::,,,-@@%,''...           "@,
            "          %%@:               '%%%,...''',.        "@,
            "         ,@@%.    .###########%@@%###****;        "@,
            "         :@@#      ....       +@@-                "@,
            "         ;@@*          ..''''.+@@=                "@,
            "         ;%%*      .;+#*++++**%%%%=-:'            "@,
            "         ,@@@.     +@@;      '%@@=-+#%%#+;        "@,
            "         .###:     '=##*++++*%#*;    .,;=,        "@,
            "                      .',,,,'.                    "@,
            "                                                  "@,
            "                                                  "@,
        ]
    } else if c == "ま"@ {
        seq![
            "                                                  "@,
            "                                                  "@,
            "                        :==;                      "@,
            "                        =@@-       .....          "@,
            "         '+++++*********%%%#*########***,         "@,
            "         .:,,,'''''''''.+@@-                      "@,
            "             ..'''''''''+@@=,:::::::;,            "@,
            "            :**********+#@@#+++++++==;            "@,
            "                        =@@;                      "@,
            "              :=********#%%#==-;,'.               "@,
            "            '%@#,.     .#@@=:;=+*####+=,          "@,
            "            .*%%-:,,,:-*@%=       .,;==.          "@,
            "              ':-==+===;,.                        "@,
            "                                                  "@,
            "                                                  "@,
        ]
    } else if c == "み"@ {
        seq![
            "                                                  "@,
            "                                                  "@,
            "                      ..'                         "@,
            "             ;==+++**+*%@%='                      "@,
            "             '-;:,,' '#@@=.      ,:,'             "@,
            "                    ,#@+'        +@@=             "@,
            "             ',:;;;=@@%;,:,'.    +%%;             "@,
            "         '-*#*+=-=@@%-;=+++*****+%%@-'.           "@,
            "       '*@#;'   :#@+'        ..'*@@**###*+:       "@,
            "       %@%'  .;#@#:            -%@+   .,;-.       "@,
            "       ,*%%##%%+:           .;%@%;                "@,
            "          .''.            .-%@#;.                 "@,
            "                            .'                    "@,
            "                                                  "@,
            "                                                  "@,
        ]
    } else if c == "む"@ {
        seq![
            "                                                  "@,
            "                                                  "@,
            "                 :==:                             "@,
            "                 +@@;                             "@,
            "         ;---====#%%#+*****-    .-=:.             "@,
            "         ;=-;;;::*@@=,,''''.    '-*%@%+;'         "@,
            "           .,::::*%@:               ';*%@*'       "@,
            "         -#@+-;;=#%%+                   ,.        "@,
            "        ;@@;     -@@*                             "@,
            "        ,#@#:,,;+%%;              ###'            "@,
            "         .:=++=+@@#               #@@'            "@,
            "                +@@+;:::::::::::;+@@*             "@,
            "                 ':-===========+==;,              "@,
            "                                                  "@,
            "                                                  "@,
        ]
    } else if c == "め"@ {
        seq![
            "                                                  "@,
            "                                                  "@,
            "                          .:,,.                   "@,
            "             :--,         =@@+                    "@,
            "             ;@@+    .',:;%%@;:,'.                "@,
            "              +%%-=****++@@@-==+*###+:.           "@,
            "            .;#@@@+,.   +@%:      ':+@%+'         "@,
            "          '+@@=:#@#'  '#@#'          ,%@%'        "@,
            "         -@@+.  .=@@-;%%=.            +%@-        "@,
            "        :@%*      :%@@@=             :%@%'        "@,
            "        '#@%:. .,=%%+;+%*:       .,-#@%+'         "@,
            "          :+##*##*-'   .     ;+*#%%*=:.           "@,
            "              .              .::,.                "@,
            "                                                  "@,
            "                                                  "@,
        ]
    } else if c == "も"@ {
        seq![
            "                                                  "@,
            "                                                  "@,
            "                     :+++,                        "@,
            "                     *@@#                         "@,
            "             ''''''',%%@;'''''                    "@,
            "             +******%@@%******.                   "@,
            "                    #@%,                          "@,
            "           :;;;;;;;-@@@-;;;;;;'                   "@,
            "           ;-------%@@+-------,   '*#*.           "@,
            "                   #%%'            *@@=           "@,
            "                  .%@@:            *@@=           "@,
            "                   ,+%@#=;::,:::-=%@#-            "@,
            "                     .,-++******+=;'              "@,
            "                                                  "@,
            "                                                  "@,
        ]
    } else if c == "や"@ {
        seq![
            "                                                  "@,
            "                                                  "@,
            "                           ';;;.                  "@,
            "               +#%=        ;@@*                   "@,
            "               :@@#      ',*@@*-====-;'.          "@,
            "               .#%@=-+*##**=-;;;::;;=*@%+:        "@,
            "        ':;=+*###%%@*:,'.             .*@@;       "@,
            "        '+*=-:,. ,%%#'      '          *@@-       "@,
            "                  ,%@%:    =%%#*+===+*%%*;        "@,
            "                   ,%@%;    .',:;---;:'.          "@,
            "                    '#@@=                         "@,
            "                     .+@@#,                       "@,
            "                       :,'.                       "@,
            "                                                  "@,
            "                                                  "@,
        ]
    } else if c == "ゆ"@ {
        seq![
            "                                                  "@,
            "                                                  "@,
            "                        ,**+                      "@,
            "         ::,'           ,@@%...                   "@,
            "        ,@@@:     .,-=+**%%%#*****+-,             "@,
            "        *%%-   ,=##*=;,'.#@@:   .,=%@#;           "@,
            "       '@@%.'=%%+:.      +@@;      .*@@;          "@,
            "       :%%%+@#;    '     +@@;       =%@+          "@,
            "       :@%@@;    '*@#;.  +%%:      :%@%'          "@,
            "       .%%%=      .:+%%*+%@@-;;-=*%%*-.           "@,
            "        +@@*          .-@@@=----;:'.              "@,
            "        .:,'         ,+%@*,                       "@,
            "                    '=++:                         "@,
            "                                                  "@,
            "                                                  "@,
        ]
    } else if c == "よ"@ {
        seq![
            "                                                  "@,
            "                                                  "@,
            "                      :::,                        "@,
            "                      #@@-                        "@,
            "                      -%%=                        "@,
            "                      :@%%+++*******#-            "@,
            "                      '@%@;,,,,,'''..             "@,
            "                       #@%'                       "@,
            "              .,,:::::,*%%;                       "@,
            "           :+##*+======%%@%##*+=-:,.              "@,
            "          ;@@+        ,%@@,.',;-+*#%%#=.          "@,
            "          .-#%*+====+#@#=,         .,;,           "@,
            "             .,:;;;::,.                           "@,
            "                                                  "@,
            "                                                  "@,
        ]
    } else if c == "ら"@ {
        seq![
            "                                                  "@,
            "                                                  "@,
            "                 '-;:,'.                          "@,
            "                 :-=+*####*+=,                    "@,
            "                        ',:--.                    "@,
            "               **+;                               "@,
            "              ,@@@'                               "@,
            "              =%%+   .,:-==+++++=-:'              "@,
            "              %%%+-*##*=-;:,,,,:;+%@#-            "@,
            "             :@@@#+:'              *@@-           "@,
            "             .'''                '-%@#'           "@,
            "                    :=======++**#%#+:             "@,
            "                    .-------;;:,'.                "@,
            "                                                  "@,
            "                                                  "@,
        ]
    } else if c == "り"@ {
        seq![
            "                                                  "@,
            "                                                  "@,
            "               .:::'           ,===.              "@,
            "               -@@%.           ,@@@.              "@,
            "               +%%-            .%%%'              "@,
            "               *@@;            .%@@,              "@,
            "               *%@;    ',       #@%,              "@,
            "               +@@= '-#@#;      %%@,              "@,
            "               ,#%%#%#=,       ;%@#               "@,
            "                 .'.         .=@@*'               "@,
            "                          .:+@@*;                 "@,
            "                      ,-+#@%*-'                   "@,
            "                      ';=;'                       "@,
            "                                                  "@,
            "                                                  "@,
        ]
    } else if c == "る"@ {
        seq![
            "                                                  "@,
            "                                                  "@,
            "                ',,,,,,::::::;=-,                 "@,
            "                :#*****+==*@@@%+;.                "@,
            "                        :+%#=,                    "@,
            "                    .:+%#=,                       "@,
            "                 .:+%@@*=--====--:,.              "@,
            "              .;*@@%+-::::::,::;-+%@*;.           "@,
            "           ,-#@@*;.                ;@@#'          "@,
            "          .;*+:.  :+**++*#+:        *%@-          "@,
            "                 ;@@-    '*@#'    .-@@*.          "@,
            "                  ;*%*-;:,;@@@--+*%#=:            "@,
            "                    .:;-=======-;,.               "@,
            "                                                  "@,
            "                                                  "@,
        ]
    } else if c == "れ"@ {
        seq![
            "                                                  "@,
            "                                                  "@,
            "                =++'                              "@,
            "               .@@@                               "@,
            "               .%%%,.      ',::,'                 "@,
            "        ,;-=+***%%%#:.';+###**#@@*'               "@,
            "        ,+=-:,..%@%=+#%*-,.    #%@:               "@,
            "              '+%%%#=,        .%@%'               "@,
            "           .;#@%%@%.          ,@@#                "@,
            "        .:+@@*:.%@%.          -%%+      ;-,       "@,
            "       -%@#-.  .%%%.          =@@*''',-#@%-       "@,
            "       .,,     .@@@.           ;+#####*=,         "@,
            "                =+=                               "@,
            "                                                  "@,
            "                                                  "@,
        ]
    } else if c == "ろ"@ {
        seq![
            "                                                  "@,
            "                                                  "@,
            "                      ..'''',,.                   "@,
            "              .+######**+#%@@@+'                  "@,
            "               .'''.   '-%@#-'                    "@,
            "                     ,+%%='                       "@,
            "                  ,=%@@+;:;------;,.              "@,
            "               ,=%@@%*=---;;::;;-=*%#=,           "@,
            "           .;+%@#=:.               '#@@;          "@,
            "           .;*='                    +%@=          "@,
            "                                .,;#@%=           "@,
            "                    ,=+++++***####*=:.            "@,
            "                     ,:::::,,''.                  "@,
            "                                                  "@,
            "                                                  "@,
        ]
    } else if c == "わ"@ {
        seq![
            "                                                  "@,
            "                                                  "@,
            "               .*#*'                              "@,
            "                @@%                               "@,
            "             ..,%%%-:'                            "@,
            "        +**##***%@%#-'.':-=+*********=:.          "@,
            "        ',''.   %%%-=*##+=;,'.....',-#@%+'        "@,
            "              :#@%%#=:.               -@@%'       "@,
            "           ,=%@#%@%                   :%%@,       "@,
            "       .,=%@%='.%@%.                '=@@%-        "@,
            "       ,+%+,   .%%%.          .,;=*%@%+;.         "@,
            "               .@@@.        :#%##+-:'             "@,
            "               .*#*.         ..                   "@,
            "                                                  "@,
            "                                                  "@,
        ]
    } else if c == "を"@ {
        seq![
            "                                                  "@,
            "                                                  "@,
            "                       ;*+;                       "@,
            "                      ;@@%,.''',,,::.             "@,
            "           :*******+*#@@#*+****+++++,             "@,
            "            ''..  '-%@*:                          "@,
            "               .:+@@@%++**+-,      .',:;.         "@,
            "           ,-+#@%*-:'. ..:%@@-=+**####**;         "@,
            "           ,-+;'    .:-=+*#%%#-:,'.               "@,
            "                .;+%%*=;,.=@@-                    "@,
            "               =%@#,      ,--,                    "@,
            "               +@@#;,''''............             "@,
            "                ';=*****************=             "@,
            "                                                  "@,
            "                                                  "@,
        ]
    } else if c == "ん"@ {
        seq![
            "                                                  "@,
            "                                                  "@,
            "                      .'.                         "@,
            "                     :%@%=,                       "@,
            "                   '*@@+,                         "@,
            "                 .=@@+,                           "@,
            "                ;#@+'                             "@,
            "              ,*@@#==+**=;.           ,-:,        "@,
            "            ,+@@#=;:,,:*@@#          '%@@+        "@,
            "          '+@@+,        %%@;        ,%@@=         "@,
            "        ,+@@*,          ;@@%.     ,+@@#:          "@,
            "        :-=-             -#@%***#%%#=:            "@,
            "                           ',:::,'                "@,
            "                                                  "@,
            "                                                  "@,
        ]
    } else {
        fallback_art(c)
    }
}

/// Every row of the picture drawn for `c` as a katakana: the hand-drawn
/// block for each of the 46 basic kana, the fallback frame for the rest.
pub open spec fn katakana_art(c: Seq<char>) -> Seq<Seq<char>> {
    if c == "ア"@ {
        seq![
            "                                                  "@,
            "                                                  "@,
            "                                      .           "@,
            "         =***####################*##%%@+,         "@,
            "         '::,,,,,,,,'',,,,''.. .,=%@@*-'          "@,
            "                      ,###,  '-*@@*;'             "@,
            "                      :@@@;=%@%+:.                "@,
            "                      ;%%@. ''                    "@,
            "                     ,%@@;                        "@,
            "                   ,+@@#:                         "@,
            "              .':+%@@+:                           "@,
            "              ;#%#=,.                             "@,
            "                                                  "@,
            "                                                  "@,
            "                                                  "@,
        ]
    } else if c == "イ"@ {
        seq![
            "                                                  "@,
            "                                                  "@,
            "                                 :,.              "@,
            "                              '-%@@+:             "@,
            "                           ,-#@@*;.               "@,
            "                       ';+#@%+:.                  "@,
            "                  ':-*%@@@@%                      "@,
            "            ',;+#%@%#=;'=%%#                      "@,
            "         ,+%@%#+-:'     =@@#                      "@,
            "           ''           =@@#                      "@,
            "                        =%%#                      "@,
            "                        +@@%                      "@,
            "                        ,;;;                      "@,
            "                                                  "@,
            "                                                  "@,
        ]
    } else if c == "ウ"@ {
        seq![
            "                                                  "@,
            "                                                  "@,
            "                      .+++;                       "@,
            "                      .@@@:                       "@,
            "          ':::;;;;;;;;-@@@+;;;;;;;;;::,           "@,
            "          ;@@@*++++++++===++++++++++@@@#          "@,
            "          ,%%%'                    '%%@+          "@,
            "          '@@@;                   '#%@#.          "@,
            "           :::'                  ;%@@+.           "@,
            "                              '-#@@*:             "@,
            "                          ':=#@@#-'               "@,
            "                     ,-=*%@@#+:.                  "@,
            "                     ';+=;,.                      "@,
            "                                                  "@,
            "                                                  "@,
        ]
    } else if c == "エ"@ {
        seq![
            "                                                  "@,
            "                                                  "@,
            "                                                  "@,
            "            ,::::::::::,,,:::::::::::'            "@,
            "            =**********@@@%**********:            "@,
            "                       *%%+                       "@,
            "                       #@@+                       "@,
            "                       #@@+                       "@,
            "                       *%%+                       "@,
            "         :+++++++++++++@@@%+++++++++++++;         "@,
            "         ';;;;;;;;;;;;;::::;;;;;;;;;;;;;,         "@,
            "                                                  "@,
            "                                                  "@,
            "                                                  "@,
            "                                                  "@,
        ]
    } else if c == "オ"@ {
        seq![
            "                                                  "@,
            "                                                  "@,
            "                        .===:                     "@,
            "                        '@@@;                     "@,
            "         ...............,%%%;............         "@,
            "        =############*#%%@%@%############;        "@,
            "               ..   .;#@@%%@; .                   "@,
            "                  '-%@%-:%%@;                     "@,
            "              .,=%@@+:  .@%@;                     "@,
            "          .,-*@@%+:.    '@%@;                     "@,
            "       .;*@@%*-'        .%%%;                     "@,
            "         ':'        ;;--*@@@:                     "@,
            "                    ;+++==-,                      "@,
            "                                                  "@,
            "                                                  "@,
        ]
    } else if c == "カ"@ {
        seq![
            "                                                  "@,
            "                                                  "@,
            "                     ';;;'                        "@,
            "                     ;@@@'                        "@,
            "                     ;%%%.                        "@,
            "          =*+********#@%@#********###;            "@,
            "          ',,,,''''''*%%#''''....'@@@-            "@,
            "                    ,%@@,        .%%%;            "@,
            "                   -@@%:         .%%%;            "@,
            "                .-%@%=.          ,%%@,            "@,
            "             ';*@@#-'     .    .,#@@+             "@,
            "          '=%@%*-'        *%###%%#*;              "@,
            "           ':,            .''''..                 "@,
            "                                                  "@,
            "                                                  "@,
        ]
    } else if c == "キ"@ {
        seq![
            "                                                  "@,
            "                                                  "@,
            "                    ;-=;                          "@,
            "                    ;@@%.                         "@,
            "            ...''',,,%@%*;-==+++***#;             "@,
            "           -####*****+#@@@--;;::,,,'.             "@,
            "            .          #%%:                       "@,
            "                   ..'.-@%@::;;--===+++***,       "@,
            "        :++****#######***@%@*+==---;;:::,,.       "@,
            "        .::,,'''...      +@%+                     "@,
            "                         .#%@-                    "@,
            "                          ,@@@;                   "@,
            "                           :=-;                   "@,
            "                                                  "@,
            "                                                  "@,
        ]
    } else if c == "ク"@ {
        seq![
            "                                                  "@,
            "                                                  "@,
            "                   ,=;;.                          "@,
            "                  :%@@-                           "@,
            "                .=@@@%+**********##-:             "@,
            "              '=@@#-,,,,,,,,,:,,#@@@;             "@,
            "           ';*@@*:             -%%@;              "@,
            "         .-#@#-'             ,*@@%:               "@,
            "            .              ,+@@%=.                "@,
            "                        ,-#@@#-.                  "@,
            "                   .,-*%@@*-'                     "@,
            "              ';=*%@@%*-,.                        "@,
            "               ,-=;,.                             "@,
            "                                                  "@,
            "                                                  "@,
        ]
    } else if c == "ケ"@ {
        seq![
            "                                                  "@,
            "                                                  "@,
            "                 ;;:,.                            "@,
            "                -@@@-                             "@,
            "               -@%#:                              "@,
            "             ,*@@@%*########****#######*#;        "@,
            "           ,+@@*:'','''''','+@@@;',''''''.        "@,
            "         ;#@%+,            '#%@=                  "@,
            "         .',.             ;%@@-                   "@,
            "                        :*@@*,                    "@,
            "                     ,=%@%+,                      "@,
            "                 .;+%@@+:.                        "@,
            "                  ':;,.                           "@,
            "                                                  "@,
            "                                                  "@,
        ]
    } else if c == "コ"@ {
        seq![
            "                                                  "@,
            "                                                  "@,
            "                                                  "@,
            "            ........................              "@,
            "           =#####################%%%-             "@,
            "                                .%@@-             "@,
            "                                 %%%-             "@,
            "                                .%%@-             "@,
            "                                .%%%-             "@,
            "           =#####################@@@=             "@,
            "           .'''''''''''''''''''''===:             "@,
            "                                                  "@,
            "                                                  "@,
            "                                                  "@,
            "                                                  "@,
        ]
    } else if c == "サ"@ {
        seq![
            "                                                  "@,
            "                                                  "@,
            "                   .         .:::,                "@,
            "               .#%%-         :@@@:                "@,
            "                #@@:         ,%%%'                "@,
            "       :========%%%*=========+@%@+========,       "@,
            "       :--------%%%*---------=@%%*--------,       "@,
            "                *@@-         .@%@:                "@,
            "                =##-         -%@%.                "@,
            "                           '+@@*'                 "@,
            "                       .:=#@%+:                   "@,
            "                   :+#%%%*-,                      "@,
            "                    ,:,.                          "@,
            "                                                  "@,
            "                                                  "@,
        ]
    } else if c == "シ"@ {
        seq![
            "                                                  "@,
            "                                                  "@,
            "                ,;,.                              "@,
            "               '+%@@%*-:'                         "@,
            "                  .,-+%*,                         "@,
            "           ,=+;,.                      ,.         "@,
            "           ;=*%@@%*-'               .;#@@=        "@,
            "               ':=+:             .:+@@%=,         "@,
            "                             .,=#@@%+:.           "@,
            "                        ':-+%@@%+;'               "@,
            "              .,,:;=+*%%@%#+-,.                   "@,
            "              '+@@#*+-;,.                         "@,
            "                ..                                "@,
            "                                                  "@,
            "                                                  "@,
        ]
    } else if c == "ス"@ {
        seq![
            "                                                  "@,
            "                                                  "@,
            "                                                  "@,
            "            ::;;;;;------====-==-,.               "@,
            "            +****+++++====--=@@@@='               "@,
            "                           :#@%-.                 "@,
            "                        ,=%@*;.                   "@,
            "                     ,-#@@@%;.                    "@,
            "                 .:+%@%+:,-*@@%+;'                "@,
            "             ';+%@@#-,      .,=#@@%+:.            "@,
            "        .:=*%@%*-,.             .;+%@@#-.         "@,
            "        .:=+;'                      ,=-,          "@,
            "                                                  "@,
            "                                                  "@,
            "                                                  "@,
        ]
    } else if c == "セ"@ {
        seq![
            "                                                  "@,
            "                                                  "@,
            "                   ...                            "@,
            "                  :%%%,                           "@,
            "                  :@%@.                           "@,
            "                  ;%%%:',::;--==+++**%*;.         "@,
            "        :-=++**###%@%@##**++==-;:;*@@%=,          "@,
            "        '+==-;::,'-@%@'        .-%@*;.            "@,
            "                  :@%@'      :#@@+,               "@,
            "                  :%%%.      .':.                 "@,
            "                  :@@@:                           "@,
            "                   -*%%###############;           "@,
            "                      ................            "@,
            "                                                  "@,
            "                                                  "@,
        ]
    } else if c == "ソ"@ {
        seq![
            "                                                  "@,
            "                                                  "@,
            "                                                  "@,
            "            ,=**:                 .**+=.          "@,
            "            .:*@@#;               =@@@;           "@,
            "               :#@@#,            :@%@+            "@,
            "                 :'.            :%%@+             "@,
            "                              '=@@%;              "@,
            "                           .:*@@#-.               "@,
            "                       .:=#@@%=,                  "@,
            "                 .,;=*%@%#=:'                     "@,
            "                 ,=#*=;'                          "@,
            "                                                  "@,
            "                                                  "@,
            "                                                  "@,
        ]
    } else if c == "タ"@ {
        seq![
            "                                                  "@,
            "                                                  "@,
            "                   .=-;:.                         "@,
            "                  '#@@*'                          "@,
            "                .-@@@@***********#*-              "@,
            "              .-%@%-'',,,,,,,,,*@@%,              "@,
            "           .:+@@#;. ,,.       :%@%,               "@,
            "          :*@%=,   :+#%%%*=:,=@%*.                "@,
            "            .         .':=%@@@@%;'.               "@,
            "                        ,+%@#-=*@%-               "@,
            "                   .:-#@@%=,    ..                "@,
            "             .,;=*%@@#+;'                         "@,
            "              ,;+=;,.                             "@,
            "                                                  "@,
            "                                                  "@,
        ]
    } else if c == "チ"@ {
        seq![
            "                                                  "@,
            "                                                  "@,
            "                                 .'               "@,
            "            :::;;;;;---====+**#####+'             "@,
            "            ,+++++====--*@@@;,,'..  .             "@,
            "                        :%%%                      "@,
            "        .*************###@%%#***********+         "@,
            "         ,,,,,,,,,,,,,,,=@%@:,,,,,,,,,,,,         "@,
            "                        *%@+                      "@,
            "                      ;%@@=                       "@,
            "                  .:+%@#='                        "@,
            "                :+%%*-,                           "@,
            "                  .                               "@,
            "                                                  "@,
            "                                                  "@,
        ]
    } else if c == "ツ"@ {
        seq![
            "                                                  "@,
            "                                                  "@,
            "                                                  "@,
            "            .'      :+#*;           :=-;,         "@,
            "          '*@@*,    .;#@@%;        .%@@@'         "@,
            "           .-%@@*'     -##*:       +%%@:          "@,
            "             '**+;                =@@@;           "@,
            "                                ,*@@#,            "@,
            "                             .:*@@#-              "@,
            "                         ':=*@@%=,                "@,
            "                 ',:;=*#%@%#+;'                   "@,
            "                 :+%#*=;:'                        "@,
            "                                                  "@,
            "                                                  "@,
            "                                                  "@,
        ]
    } else if c == "テ"@ {
        seq![
            "                                                  "@,
            "                                                  "@,
            "              .,',,,,,,,,,,,,,,,,',               "@,
            "              :####################,              "@,
            "                                                  "@,
            "         ::::::::::::::::::::::::::::::::         "@,
            "        .+*+************#@@@**********+*+         "@,
            "                        ;%%%                      "@,
            "                        *%@*                      "@,
            "                      .+@@*.                      "@,
            "                    ,=@@#-                        "@,
            "                  ,+%@+:.                         "@,
            "                    ..                            "@,
            "                                                  "@,
            "                                                  "@,
        ]
    } else if c == "ト"@ {
        seq![
            "                                                  "@,
            "                                                  "@,
            "                    ''''                          "@,
            "                    #@@*                          "@,
            "                    *%%+                          "@,
            "                    *@@+                          "@,
            "                    *@%%#*+-;:'.                  "@,
            "                    *@%*:-=+#%%%%#*=;:'           "@,
            "                    *@@+       ',;=*##:           "@,
            "                    *@@+                          "@,
            "                    *%%+                          "@,
            "                    #@@*                          "@,
            "                    .''.                          "@,
            "                                                  "@,
            "                                                  "@,
        ]
    } else if c == "ナ"@ {
        seq![
            "                                                  "@,
            "                                                  "@,
            "                       :;;:                       "@,
            "                       #@@*                       "@,
            "                       *%%+                       "@,
            "       .+++++++++++++++%@@#++++++++++++++'        "@,
            "       .;;;;;;;;;;;;;;;*@@%;;;;;;;;;;;;;;.        "@,
            "                       +@%*                       "@,
            "                      ,%%@;                       "@,
            "                     ;%@@-                        "@,
            "                 .,=%@%+'                         "@,
            "              ,=#@@%+:.                           "@,
            "              .,;:'                               "@,
            "                                                  "@,
            "                                                  "@,
        ]
    } else if c == "ニ"@ {
        seq![
            "                                                  "@,
            "                                                  "@,
            "                                                  "@,
            "             ',,,,,,,,,,,,,,,,,,,,,,              "@,
            "             +**********************.             "@,
            "                                                  "@,
            "                                                  "@,
            "                                                  "@,
            "         .'''''''''''''''''''''''''''''''.        "@,
            "         +###############################;        "@,
            "                                                  "@,
            "                                                  "@,
            "                                                  "@,
            "                                                  "@,
            "                                                  "@,
        ]
    } else if c == "ヌ"@ {
        seq![
            "                                                  "@,
            "                                                  "@,
            "                                                  "@,
            "            :---------=============:.             "@,
            "            ;====---------;;;;;#@@@='             "@,
            "                 ..          .=%@*'               "@,
            "                :*%%#+-,.  '=@@#:                 "@,
            "                  .';=*#%**@@*,                   "@,
            "                     .;#@@##@%*=:.                "@,
            "                ':=*%@#=:.  ';+%@@*-,.            "@,
            "         .:-=*#%%#+-,.          ';*@#;            "@,
            "          ,=+-:'.                                 "@,
            "                                                  "@,
            "                                                  "@,
            "                                                  "@,
        ]
    } else if c == "ネ"@ {
        seq![
            "                                                  "@,
            "                                                  "@,
            "                      '---'                       "@,
            "                      ,@@@'                       "@,
            "           .;;;;;;;;--+@@@+-----=+;.              "@,
            "           .++++++=====-;;;-*@@@@*-'              "@,
            "                        .:=##*-'                  "@,
            "                   ':=*%@@+:. '-=;,.              "@,
            "            .,:-+#%%#++@%%'   :=*%@@#+;'.         "@,
            "         ;*%%%#+-:'   ,%%@,       ':+#@@=.        "@,
            "          ',.         :%%%,           ..          "@,
            "                      :@@@,                       "@,
            "                      '---.                       "@,
            "                                                  "@,
            "                                                  "@,
        ]
    } else if c == "ノ"@ {
        seq![
            "                                                  "@,
            "                                                  "@,
            "                                                  "@,
            "                             -+-;,                "@,
            "                            =@@@#,                "@,
            "                          '*@@%-                  "@,
            "                        .-%@@*,                   "@,
            "                      .-%@@*:                     "@,
            "                   .;*@@%=,                       "@,
            "               .:=#@@%+:.                         "@,
            "          .:-+#@@@*-,                             "@,
            "          .:-*+;'                                 "@,
            "                                                  "@,
            "                                                  "@,
            "                                                  "@,
        ]
    } else if c == "ハ"@ {
        seq![
            "                                                  "@,
            "                                                  "@,
            "                                                  "@,
            "                               .                  "@,
            "                -;,'         ;#@#-.               "@,
            "               +@@@-.        .:+@@%='             "@,
            "             .*@@%;             ,+@@%+'           "@,
            "            ;%@@*'                :#@@%-          "@,
            "          :*@@#;                    =@%@#'        "@,
            "       '-%@@#;.                      ;%@@@:       "@,
            "       .:-=:                          ,;,''       "@,
            "                                                  "@,
            "                                                  "@,
            "                                                  "@,
            "                                                  "@,
        ]
    } else if c == "ヒ"@ {
        seq![
            "                                                  "@,
            "                                                  "@,
            "                                                  "@,
            "              +**=                                "@,
            "              %@@+                .'              "@,
            "              #%%+..'',,:;--=+*##%%%#'            "@,
            "              #@%%%%%###**++=-;:,,'...            "@,
            "              #@@+..                              "@,
            "              #@@=                                "@,
            "              #%%=                                "@,
            "              #@@#:,,,,,,,,,,,,,,,,,,'            "@,
            "              '-=********************:            "@,
            "                                                  "@,
            "                                                  "@,
            "                                                  "@,
        ]
    } else if c == "フ"@ {
        seq![
            "                                                  "@,
            "                                                  "@,
            "                                                  "@,
            "           '=========================+;.          "@,
            "           .-----------------------@@@@'          "@,
            "                                  '%%@+           "@,
            "                                 :%@@+            "@,
            "                               ,+@@%;             "@,
            "                            ,-#@@*;.              "@,
            "                      .,;=#@@@*-'                 "@,
            "               ,-=+*#%@@%#+;'                     "@,
            "               .;++=;:'.                          "@,
            "                                                  "@,
            "                                                  "@,
            "                                                  "@,
        ]
    } else if c == "ヘ"@ {
        seq![
            "                                                  "@,
            "                                                  "@,
            "                                                  "@,
            "                    .''.                          "@,
            "                 '-#@@@@#=:.                      "@,
            "             .:=%@@*:',;*@@@*-,                   "@,
            "          ';*@@@*:.       ,=#@@%*;'               "@,
            "        '+@@@*;.             .:+%@@%+;'           "@,
            "          ,:.                    '-*@@@%+:        "@,
            "                                    .,=+;'        "@,
            "                                                  "@,
            "                                                  "@,
            "                                                  "@,
            "                                                  "@,
            "                                                  "@,
        ]
    } else if c == "ホ"@ {
        seq![
            "                                                  "@,
            "                                                  "@,
            "                       -==;                       "@,
            "                       @@@=                       "@,
            "                      .%%%-                       "@,
            "        .##############%@@%#############*         "@,
            "         .......  ....'%%@=..... .. .....         "@,
            "             .=*+;.    %%@-    .-**;.             "@,
            "            ;%@@+'    .%%@-    .:+%@@*;.          "@,
            "         .;#@@*,      .%%@-        :*@@%=,        "@,
            "        .+%@*,        .%%%-          ,+#*-.       "@,
            "           .          .@@@=                       "@,
            "                       -==,                       "@,
            "                                                  "@,
            "                                                  "@,
        ]
    } else if c == "マ"@ {
        seq![
            "                                                  "@,
            "                                                  "@,
            "                                                  "@,
            "         '''''''''''',,,,,,,,,,::,,,,:,           "@,
            "         +%%%%%%%%%##########***+#@@@@%-.         "@,
            "          ..                   '-%@%+:.           "@,
            "                  '         .;#@@#;'              "@,
            "                ,*@@#=:. .;*@@#-'                 "@,
            "                  ':+%@@#%@%-.                    "@,
            "                      ';+%@@+;'                   "@,
            "                          ,=%@@+'                 "@,
            "                             ,'                   "@,
            "                                                  "@,
            "                                                  "@,
            "                                                  "@,
        ]
    } else if c == "ミ"@ {
        seq![
            "                                                  "@,
            "                                                  "@,
            "                                                  "@,
            "               ;%%%###**+==-;:,'..                "@,
            "               ',,::;;-=++*##%%@@*                "@,
            "                               .'.                "@,
            "                +###**+=-;:,'.                    "@,
            "                ,::;-==+*##%%@%%#*,               "@,
            "                             .':--                "@,
            "              ;%###*++=-;:,'.                     "@,
            "              ,::;-=+**#%%@@@@%#*+-;.             "@,
            "                          .',:;=+*%#.             "@,
            "                                                  "@,
            "                                                  "@,
            "                                                  "@,
        ]
    } else if c == "ム"@ {
        seq![
            "                                                  "@,
            "                                                  "@,
            "                       .                          "@,
            "                      -%%#:                       "@,
            "                     ;@%@;                        "@,
            "                    ;@%@;                         "@,
            "                   -@@%:                          "@,
            "                  +@@#'       ,;-,                "@,
            "                '#@@=         ;*@@#-'             "@,
            "               ;%@#:            ,=%@@*:           "@,
            "        -++***#@@@%*#############*###@@#-'        "@,
            "        '*=---;;::::::,,,''''.....   ,*%#=.       "@,
            "                                       .          "@,
            "                                                  "@,
            "                                                  "@,
        ]
    } else if c == "メ"@ {
        seq![
            "                                                  "@,
            "                                                  "@,
            "                                                  "@,
            "                             -%#*:                "@,
            "                            :@%@=                 "@,
            "                 ,=;,'     ;@@@-                  "@,
            "                .-*#%@%#+;=@%#,                   "@,
            "                     .,+@@@@@#-:.                 "@,
            "                     ,+%@#-,;+%@@%-               "@,
            "                 ,-*@@%=,      ';;.               "@,
            "           ',;=#@@%*-'                            "@,
            "          .;*%#+;'                                "@,
            "                                                  "@,
            "                                                  "@,
            "                                                  "@,
        ]
    } else if c == "モ"@ {
        seq![
            "                                                  "@,
            "                                                  "@,
            "                                                  "@,
            "           '=========----===========:             "@,
            "           '---------%@@%-----------,             "@,
            "                     +%%*                         "@,
            "        .;;;;;;;;;;;;#@@#;;;;;;;;;;;;;;;'         "@,
            "        '++++++++++++%@@%+++++++++++++++:         "@,
            "                     +@@*                         "@,
            "                     *@%*                         "@,
            "                     -@@@*++++++++++++-           "@,
            "                      '::;;;;;;;;;;;;;:           "@,
            "                                                  "@,
            "                                                  "@,
            "                                                  "@,
        ]
    } else if c == "ヤ"@ {
        seq![
            "                                                  "@,
            "                                                  "@,
            "                ,,::                              "@,
            "                ;@@@=                             "@,
            "                 '#%@+     .'',:;-=++*##+;.       "@,
            "              .',,=@@@*+*####**++-;;*@@@#:.       "@,
            "        -**######*+=*@@@;..       :*@@+,          "@,
            "        ';:,'..      +@%#'     .-%@%='            "@,
            "                      +@@%,     ',:.              "@,
            "                       =@%@:                      "@,
            "                        -@%@-                     "@,
            "                         ;@@@=                    "@,
            "                          ,:''                    "@,
            "                                                  "@,
            "                                                  "@,
        ]
    } else if c == "ユ"@ {
        seq![
            "                                                  "@,
            "                                                  "@,
            "                                                  "@,
            "             ...................                  "@,
            "             =##############%%%%,                 "@,
            "                            ;@%@'                 "@,
            "                            -%%%.                 "@,
            "                            +@@%.                 "@,
            "                            *%%#                  "@,
            "        ++++++++++++++++++++@@@@+++++++++-        "@,
            "        :;;;;;;;;;;;;;;;;;;;::::;;;;;;;;;,        "@,
            "                                                  "@,
            "                                                  "@,
            "                                                  "@,
            "                                                  "@,
        ]
    } else if c == "ヨ"@ {
        seq![
            "                                                  "@,
            "                                                  "@,
            "                                                  "@,
            "             +*******************+++,             "@,
            "             ,::::::::::::::::::-@@@;             "@,
            "                                 %%%:             "@,
            "              ,-;--------------;=@%@:             "@,
            "              ;++++++++++++++++++@%@:             "@,
            "                                .@%@:             "@,
            "                                ,%%%:             "@,
            "             +###################@@@;             "@,
            "             ...................,+++,             "@,
            "                                                  "@,
            "                                                  "@,
            "                                                  "@,
        ]
    } else if c == "ラ"@ {
        seq![
            "                                                  "@,
            "                                                  "@,
            "             '::::::::::::::::::::,               "@,
            "             ;*********************               "@,
            "                                                  "@,
            "          ,+++++++++++++++++++++++=+=;,           "@,
            "          ';;;;;;;;;;;;;;;;;;;;-;;%@@@:           "@,
            "                                 ;%@%:            "@,
            "                               ,*@@*,             "@,
            "                           .,=#@@+:               "@,
            "                     .':-+#@@%+:.                 "@,
            "                 .;*%%%%#+-:.                     "@,
            "                   .,'.                           "@,
            "                                                  "@,
            "                                                  "@,
        ]
    } else if c == "リ"@ {
        seq![
            "                                                  "@,
            "                                                  "@,
            "                               ::::               "@,
            "               *##=            %@@*               "@,
            "               %@@=            #%%+               "@,
            "               %%%=            #@@+               "@,
            "               %%%=            #@@+               "@,
            "               %@@=            #%%+               "@,
            "               :::'           -%%@:               "@,
            "                            '+@@%;                "@,
            "                        .,-#@@#-.                 "@,
            "                     ,=#@@%*-'                    "@,
            "                      ':,.                        "@,
            "                                                  "@,
            "                                                  "@,
        ]
    } else if c == "ル"@ {
        seq![
            "                                                  "@,
            "                                                  "@,
            "                                                  "@,
            "               ,:::     .###;                     "@,
            "               +@@%     '@@@;                     "@,
            "               =%%#     '%%%;                     "@,
            "               *@%*     '@%@;                     "@,
            "              :%%@:     '@%@;         '-%%-       "@,
            "             :%@@=      '%%@;     .,=#@@+;'       "@,
            "           '=@@%;       '@%%;.,;+#%@#=:.          "@,
            "        .;*@@#-.        '%@@%%%#+-,.              "@,
            "        ;+#=,            .,:'.                    "@,
            "                                                  "@,
            "                                                  "@,
            "                                                  "@,
        ]
    } else if c == "レ"@ {
        seq![
            "                                                  "@,
            "                                                  "@,
            "                                                  "@,
            "               =**=                               "@,
            "               #@@*                               "@,
            "               *%%+                               "@,
            "               *@@+                   '+=:        "@,
            "               *@@+                .:*@@#;        "@,
            "               *@@+             ,-*@@#-'          "@,
            "               *%%+      .':;+#%@%+;'             "@,
            "               #@@#-=+*#%%%%#+-:.                 "@,
            "               :=***+=-;,'.                       "@,
            "                                                  "@,
            "                                                  "@,
            "                                                  "@,
        ]
    } else if c == "ロ"@ {
        seq![
            "                                                  "@,
            "                                                  "@,
            "                                                  "@,
            "             ;;;;-----------------;;;'            "@,
            "            .@@@#================+@@@-            "@,
            "            .%%%-                 %%%;            "@,
            "            .%%@-                .%%@;            "@,
            "            .%%@-                .%%@;            "@,
            "            .%%%-                .%%%;            "@,
            "            .%@@%#################@@@-            "@,
            "             *##-'''''''''''''''''===,            "@,
            "                                                  "@,
            "                                                  "@,
            "                                                  "@,
            "                                                  "@,
        ]
    } else if c == "ワ"@ {
        seq![
            "                                                  "@,
            "                                                  "@,
            "                                                  "@,
            "           =##########################=           "@,
            "           *@@#''''''''''''''''''';@@@=           "@,
            "           +%%*                   -%%@,           "@,
            "           *@@#                  .%%@*            "@,
            "           ''''                 '#@@#.            "@,
            "                              '=@@%=.             "@,
            "                          .,=#@@#-'               "@,
            "                    ':;=*%@@%+;'                  "@,
            "                    :+#*=;,.                      "@,
            "                                                  "@,
            "                                                  "@,
            "                                                  "@,
        ]
    } else if c == "ヲ"@ {
        seq![
            "                                                  "@,
            "                                                  "@,
            "                                                  "@,
            "           -##########################=.          "@,
            "           .'.....................:@@@=           "@,
            "             '''''''''''''''''''''+%%%.           "@,
            "             *#################*#@@@%,            "@,
            "                               '+@@*'             "@,
            "                            .:*@@*;               "@,
            "                        ':=#@@#=,                 "@,
            "               .'':;=+#%@@#+;'                    "@,
            "               '-#%#*=-:'                         "@,
            "                                                  "@,
            "                                                  "@,
            "                                                  "@,
        ]
    } else if c == "ン"@ {
        seq![
            "                                                  "@,
            "                                                  "@,
            "                                                  "@,
            "            .-##=:'                               "@,
            "            .:-*%@@%+;'                           "@,
            "                 ';*#='               ;=;,        "@,
            "                                    :#@@#:        "@,
            "                                 ,=%@@+:          "@,
            "                            .,;*%@@*;'            "@,
            "                    .',:-=*%@@%*=:.               "@,
            "           .+*###%%%%%%%#*=;:'                    "@,
            "            ,+;::,,''.                            "@,
            "                                                  "@,
            "                                                  "@,
            "                                                  "@,
        ]
    } else {
        fallback_art(c)
    }
}

/// One fifteen-row picture, one argument per row.
fn lines15(
    l0: &str,
    l1: &str,
    l2: &str,
    l3: &str,
    l4: &str,
    l5: &str,
    l6: &str,
    l7: &str,
    l8: &str,
    l9: &str,
    l10: &str,
    l11: &str,
    l12: &str,
    l13: &str,
    l14: &str,
) -> (r: Vec<String>)
    ensures
        r@.len() == 15,
        r.deep_view() == seq![
            l0@,
            l1@,
            l2@,
            l3@,
            l4@,
            l5@,
            l6@,
            l7@,
            l8@,
            l9@,
            l10@,
            l11@,
            l12@,
            l13@,
            l14@,
        ],
{
    let mut v: Vec<String> = Vec::new();
    v.push(String::from_str(l0));
    v.push(String::from_str(l1));
    v.push(String::from_str(l2));
    v.push(String::from_str(l3));
    v.push(String::from_str(l4));
    v.push(String::from_str(l5));
    v.push(String::from_str(l6));
    v.push(String::from_str(l7));
    v.push(String::from_str(l8));
    v.push(String::from_str(l9));
    v.push(String::from_str(l10));
    v.push(String::from_str(l11));
    v.push(String::from_str(l12));
    v.push(String::from_str(l13));
    v.push(String::from_str(l14));
    proof {
        assert(v.deep_view() =~= seq![
            l0@,
            l1@,
            l2@,
            l3@,
            l4@,
            l5@,
            l6@,
            l7@,
            l8@,
            l9@,
            l10@,
            l11@,
            l12@,
            l13@,
            l14@,
        ]);
    }
    v
}

/// The boxed fallback frame, with `character` in its middle row.
fn fallback_box(character: &str) -> (r: Vec<String>)
    ensures
        r.deep_view() == fallback_art(character@),
{
    let mut v: Vec<String> = Vec::new();
    v.push(String::from_str("  \u{2554}\u{2550}\u{2550}\u{2550}\u{2550}\u{2550}\u{2550}\u{2550}\u{2550}\u{2550}\u{2550}\u{2550}\u{2550}\u{2550}\u{2550}\u{2550}\u{2557}   "));
    v.push(String::from_str("  \u{2551}               \u{2551}   "));
    v.push(String::from_str("  \u{2551}               \u{2551}   "));
    let mut mid = String::from_str("  \u{2551}       ");
    mid.append(character);
    mid.append("       \u{2551}   ");
    v.push(mid);
    v.push(String::from_str("  \u{2551}               \u{2551}   "));
    v.push(String::from_str("  \u{2551}               \u{2551}   "));
    v.push(String::from_str("  \u{255a}\u{2550}\u{2550}\u{2550}\u{2550}\u{2550}\u{2550}\u{2550}\u{2550}\u{2550}\u{2550}\u{2550}\u{2550}\u{2550}\u{2550}\u{2550}\u{255d}   "));
    v.push(String::from_str("                      "));
    v.push(String::from_str("                      "));
    proof {
        assert(v.deep_view() =~= fallback_art(character@));
    }
    v
}

/// The picture of one hiragana: for the 46 basic kana the hand-drawn
/// fifteen-row block that `hiragana_art` fixes row for row, for any other
/// string the boxed fallback frame.
pub fn get_ascii_art(character: &str) -> (r: Vec<String>)
    ensures
        r.deep_view() == hiragana_art(character@),
        known_hiragana(character@) ==> r@.len() == 15,
        !known_hiragana(character@) ==> r.deep_view() == fallback_art(character@),
{
    if str_eq(character, "あ") {
        let r = lines15(
            "                                                  ",
            "                                                  ",
            "                   -##+                           ",
            "                   *@@-    ...''',,.              ",
            "            +******%%@######****#**;              ",
            "            ',,,,':@@%.     :;:,                  ",
            "                  :@%%-==+++@@@@+=-;,.            ",
            "              ';+#%%%@=;:,:%%@+:;-=*%@*-'         ",
            "            ;#@#-,.+@%-  .+@@-       ;@@%;        ",
            "          .*@%:    .#%@;-%@*,         +%%@        ",
            "          -@%;      -@@@@#,          ;%@@=        ",
            "          .+%%=-=+*##+=#+:  ',,:;-=*%@#=,         ",
            "            .:---;:'        '=##*+=;:.            ",
            "                                                  ",
            "                                                  ",
        );
        proof {
            assert(r.deep_view() =~= hiragana_art(character@));
        }
        return r;
    }
    if str_eq(character, "い") {
        let r = lines15(
            "                                                  ",
            "                                                  ",
            "                                                  ",
            "           ++=;                  .                ",
            "          ,@@@:                ;*@#='             ",
            "          ;%%%.                 '-%@@*,           ",
            "          -@@#                    .=@@@+.         ",
            "          -%@#                      ;%%@#'        ",
            "          ;@%%.      '.              ;@@@%.       ",
            "          .@@%-     -@@#'             ;;:,.       ",
            "           :#@@*--=%@%='                          ",
            "             ,-+***=:.                            ",
            "                                                  ",
            "                                                  ",
            "                                                  ",
        );
        proof {
            assert(r.deep_view() =~= hiragana_art(character@));
        }
        return r;
    }
    if str_eq(character, "う") {
        let r = lines15(
            "                                                  ",
            "                                                  ",
            "                 .***+=--;:,,''..                 ",
            "                 ';-==+**###%%%%*                 ",
            "                                                  ",
            "                 .',,:;-=++**+=-:'                ",
            "             ,#%%%%%##*++=---=*@@@*:              ",
            "              ':,'.            .+%@@,             ",
            "                                =%%@:             ",
            "                              .-@@@=              ",
            "                           ';*@@%+,               ",
            "                    ,;-=*#@@@#=:.                 ",
            "                    ,+#*=-:'.                     ",
            "                                                  ",
            "                                                  ",
        );
        proof {
            assert(r.deep_view() =~= hiragana_art(character@));
        }
        return r;
    }
    if str_eq(character, "え") {
        let r = lines15(
            "                                                  ",
            "                                                  ",
            "                 :,,'''.....                      ",
            "                '**############,                  ",
            "                                                  ",
            "            .::::;;;---=---==+*#='                ",
            "            .+*++++==-;;;=#@@%+;,.                ",
            "                      ,-**=:.                     ",
            "                  '-#@@@%+=-;'                    ",
            "               ,=%@%+;,'',=@@#                    ",
            "           .,=%@#-,       '@%*                    ",
            "          :*@#-'          .+%@*+++++++++:         ",
            "            .               .'::::::::::.         ",
            "                                                  ",
            "                                                  ",
        );
        proof {
            assert(r.deep_view() =~= hiragana_art(character@));
        }
        return r;
    }
    if str_eq(character, "お") {
        let r = lines15(
            "                                                  ",
            "                                                  ",
            "                  -+=:                            ",
            "                  #@@'          .:;'              ",
            "          .,,,,,::#%%+=++*#*    :+%@%*-,.         ",
            "          '****+++%@@=;;:,'.       ';+%@*,        ",
            "                  *@@.      ...        '          ",
            "                .:#%%*************+=:'            ",
            "            ';+##*%%@;'..       .';+@@*:          ",
            "          '+@%=,. *@%'              .#@@:         ",
            "         .%@#     #@@,   '-+-.      ,%@%,         ",
            "          +%%-:::+@%+    .;*%%#*++*#%*='          ",
            "           ':=+++-:'         .,,::,'              ",
            "                                                  ",
            "                                                  ",
        );
        proof {
            assert(r.deep_view() =~= hiragana_art(character@));
        }
        return r;
    }
    if str_eq(character, "か") {
        let r = lines15(
            "                                                  ",
            "                                                  ",
            "                  .,''.                           ",
            "                  *@@+'                           ",
            "                 =@%+          .,;,               ",
            "        .::::;;:=@@@+=+++-;'   '=%@#-'            ",
            "        '*++++-#@@#:;;::;#@%;     ;#@%='          ",
            "              :%@#.      ,%@%       -@@%;         ",
            "             =@@*.       '@%%.       ,#@@*.       ",
            "           '*@@=         ;%%#         '=;:.       ",
            "          -%@#:  '--'   ,%@@:                     ",
            "        :#@@=.   :+%%%#%@%+,                      ",
            "        '','        .',,.                         ",
            "                                                  ",
            "                                                  ",
        );
        proof {
            assert(r.deep_view() =~= hiragana_art(character@));
        }
        return r;
    }
    if str_eq(character, "き") {
        let r = lines15(
            "                                                  ",
            "                                                  ",
            "                      ;+==                        ",
            "                      '%@@'  ..'',:.              ",
            "            =++++++++++%@@%******++,              ",
            "            ',,,,,'''''.:#@%:     .',:;:          ",
            "           ;;;;;;-----===#@@@##***##**+=.         ",
            "           ;===--;;;::::,,''-#%#-'                ",
            "                 ',:;;;------=*@@@#=,             ",
            "             '=#%#+-;;:::::::::;;-=:.             ",
            "             *@@-                                 ",
            "             '+%%*=--;;;;;;;;;;;;:                ",
            "               .,;-=+++++++++++++:                ",
            "                                                  ",
            "                                                  ",
        );
        proof {
            assert(r.deep_view() =~= hiragana_art(character@));
        }
        return r;
    }
    if str_eq(character, "く") {
        let r = lines15(
            "                                                  ",
            "                                                  ",
            "                            '=-,.                 ",
            "                         .;#@@*;'                 ",
            "                      ';*@@*;.                    ",
            "                   ,=#@%+:.                       ",
            "               .:=#@#=,                           ",
            "              '%@@#'                              ",
            "               '-*%%*-,                           ",
            "                  .:=%@%*-'                       ",
            "                      ';*@@%+:.                   ",
            "                         .:+%@@*:                 ",
            "                             :=;'                 ",
            "                                                  ",
            "                                                  ",
        );
        proof {
            assert(r.deep_view() =~= hiragana_art(character@));
        }
        return r;
    }
    if str_eq(character, "け") {
        let r = lines15(
            "                                                  ",
            "                                                  ",
            "                               :--,               ",
            "            +%#+.              *@@;               ",
            "           ,@@@,               +%%,               ",
            "           =%%*     ========+++%@@#*****#*        ",
            "           *@@;     ------;;;;:#@@-,,''...        ",
            "           #@@:                +@%:               ",
            "           #@@;                #%@,               ",
            "           +%%+               =%@*                ",
            "           ,@@@'            '+@@+.                ",
            "            ::,.          ,+@@#;                  ",
            "                          ',;:                    ",
            "                                                  ",
            "                                                  ",
        );
        proof {
            assert(r.deep_view() =~= hiragana_art(character@));
        }
        return r;
    }
    if str_eq(character, "こ") {
        let r = lines15(
            "                                                  ",
            "                                                  ",
            "                                                  ",
            "              .====================.              ",
            "              .--------------------.              ",
            "                                                  ",
            "                                                  ",
            "                                                  ",
            "            '#**'                                 ",
            "            ;@@@'                                 ",
            "             ;*%@#**++++++++++++++++++'           ",
            "               .',::::::::::::::::::::.           ",
            "                                                  ",
            "                                                  ",
            "                                                  ",
        );
        proof {
            assert(r.deep_view() =~= hiragana_art(character@));
        }
        return r;
    }
    if str_eq(character, "さ") {
        let r = lines15(
            "                                                  ",
            "                                                  ",
            "                      -++=                        ",
            "                      .%@@;                       ",
            "            ''''''',,,,;@@@-:;---=++*,            ",
            "            ;********+++++@@@*----;;:'            ",
            "                          '+%%-'                  ",
            "                   .'''''''':*@@#=,.              ",
            "              .;+##**+++++++++*#@@@@*;            ",
            "             ;%@#,.             .',;:.            ",
            "             -@@*.                                ",
            "              ,=#@#*+=-;;;;;;;;:;'                ",
            "                 .,;-==++++++++++'                ",
            "                                                  ",
            "                                                  ",
        );
        proof {
            assert(r.deep_view() =~= hiragana_art(character@));
        }
        return r;
    }
    if str_eq(character, "し") {
        let r = lines15(
            "                                                  ",
            "                                                  ",
            "               .'''.                              ",
            "               -@@@.                              ",
            "               -%%%.                              ",
            "               -@%%.                              ",
            "               -@%%.                              ",
            "               -@%%.                              ",
            "               -%%%.                              ",
            "               ;@%%.               ';**:          ",
            "               .#@@#:.       .':-+%@@#=,          ",
            "                 :=#%%#######%%#*+;,.             ",
            "                     .''',,''.                    ",
            "                                                  ",
            "                                                  ",
        );
        proof {
            assert(r.deep_view() =~= hiragana_art(character@));
        }
        return r;
    }
    if str_eq(character, "す") {
        let r = lines15(
            "                                                  ",
            "                                                  ",
            "                         -##;                     ",
            "                         +@@:                     ",
            "       .------========+++#%%#+********#*#=        ",
            "       .==-----;;:::::::,*@@=''''''......         ",
            "                 :=++==++%%@:                     ",
            "               =@@+'    '#%@+                     ",
            "               -%@+,''',;#%%%.                    ",
            "                .:=+++=-=%%@*                     ",
            "                       ,*@%=                      ",
            "                  ',-*%@#-'                       ",
            "                 .;*#=:.                          ",
            "                                                  ",
            "                                                  ",
        );
        proof {
            assert(r.deep_view() =~= hiragana_art(character@));
        }
        return r;
    }
    if str_eq(character, "せ") {
        let r = lines15(
            "                                                  ",
            "                                                  ",
            "                              ....                ",
            "               ';;:           +%%-                ",
            "               -@@=           =@@:                ",
            "            ...=%%=''',,,,,:::*%%+;;------        ",
            "       ;#####**#@@#**++++++++=#@%*--------        ",
            "        ...    -@@-           =%@:                ",
            "               -@@=    '-----=%@@:                ",
            "               -%%-    .======-:'                 ",
            "               ;@@*'                              ",
            "                ;*#%################-             ",
            "                   .................              ",
            "                                                  ",
            "                                                  ",
        );
        proof {
            assert(r.deep_view() =~= hiragana_art(character@));
        }
        return r;
    }
    if str_eq(character, "そ") {
        let r = lines15(
            "                                                  ",
            "                                                  ",
            "                .....'',,,,::-=:'                 ",
            "               '####**+==+%@@@@#='                ",
            "                      ';+#%*-,.                   ",
            "                  .:=*#+-,         ....'.         ",
            "         '',,::-+%@@@#=--=+*##########*#=         ",
            "         =#***++=-;;::-*@@#+-:,'...               ",
            "                    ,+%#;.                        ",
            "                   ,@@@:                          ",
            "                   .*@@#:.                        ",
            "                     :=#@@%#**++==.               ",
            "                        .',;--=++:                ",
            "                                                  ",
            "                                                  ",
        );
        proof {
            assert(r.deep_view() =~= hiragana_art(character@));
        }
        return r;
    }
    if str_eq(character, "た") {
        let r = lines15(
            "                                                  ",
            "                                                  ",
            "                 ,;::.                            ",
            "                 %@@=                             ",
            "                :@%%'',,:;'                       ",
            "        .*******%%@#**+++=:                       ",
            "         ..... ;@@*         .',::;----=:          ",
            "              .#%@'      =####**++===--;          ",
            "              *@@-       .'.                      ",
            "             +@@+                                 ",
            "            +@@+       .,.                        ",
            "          ,%@@=        -*###***+++++++++-         ",
            "          ',::            .',,:;;;;;;;;;:         ",
            "                                                  ",
            "                                                  ",
        );
        proof {
            assert(r.deep_view() =~= hiragana_art(character@));
        }
        return r;
    }
    if str_eq(character, "ち") {
        let r = lines15(
            "                                                  ",
            "                                                  ",
            "                   '-;:.                          ",
            "                   +@@=                           ",
            "          ,,,:::::-@%@=-==++****.                 ",
            "          =+++++=+@%%-;;;:::,,''                  ",
            "                 =%@;                             ",
            "                -@%= ',:;-==++===-:'              ",
            "              .-@@@###*+-;;:::::;=#@%+'           ",
            "             .-%%*-:'              :@@@.          ",
            "                .                .,+@@*.          ",
            "                     :----===++*#%%#+:            ",
            "                     '=====--;;:,'.               ",
            "                                                  ",
            "                                                  ",
        );
        proof {
            assert(r.deep_view() =~= hiragana_art(character@));
        }
        return r;
    }
    if str_eq(character, "つ") {
        let r = lines15(
            "                                                  ",
            "                                                  ",
            "                                                  ",
            "                     ..',,::::::,,.               ",
            "         ..',:;=+**####***+++++**#%%#=:           ",
            "         -%@%#*+=;:'.             .:+@@%:         ",
            "          ''                         -%%@'        ",
            "                                     ;%@@'        ",
            "                                  .,+@@#:         ",
            "                    ....'',,:;-=+#%%#=:           ",
            "                    =#######**+=-:'.              ",
            "                                                  ",
            "                                                  ",
            "                                                  ",
            "                                                  ",
        );
        proof {
            assert(r.deep_view() =~= hiragana_art(character@));
        }
        return r;
    }
    if str_eq(character, "て") {
        let r = lines15(
            "                                                  ",
            "                                                  ",
            "                                                  ",
            "                ...''',,,,,:;--==++***#*          ",
            "         -########***++*%@@@%#+-;::,,'''          ",
            "         .,'''..     :+%#+:'                      ",
            "                   .*@@-.                         ",
            "                   *@%;                           ",
            "                   #@%;                           ",
            "                   '*@@='                         ",
            "                     ,=%@%*+-;:,,'''.             ",
            "                        .,;=+**####*.             ",
            "                                                  ",
            "                                                  ",
            "                                                  ",
        );
        proof {
            assert(r.deep_view() =~= hiragana_art(character@));
        }
        return r;
    }
    if str_eq(character, "と") {
        let r = lines15(
            "                                                  ",
            "                                                  ",
            "                   ,:::                           ",
            "                   =@@%                           ",
            "                   :%%%                           ",
            "                   '@%@'         .',              ",
            "                    +%%*,:;=+*#%%%%%+.            ",
            "                 .,-*@@%%#*+=;:,'..               ",
            "              :=#@%*=:'.                          ",
            "            :#@@=,                                ",
            "            +@@%'                                 ",
            "             -*%@#**++++++++++++++++:             ",
            "               .',::;;;;;;;;;;;;;;;;'             ",
            "                                                  ",
            "                                                  ",
        );
        proof {
            assert(r.deep_view() =~= hiragana_art(character@));
        }
        return r;
    }
    if str_eq(character, "な") {
        let r = lines15(
            "                                                  ",
            "                                                  ",
            "                  '+=-.                           ",
            "                  #@%:                            ",
            "         ';;----;*@@%=+**#,   ;#**=-;,'.          ",
            "         '====-+@@@-:::,''.   ..,:-+*##%+.        ",
            "              .*@%,           :::.     .          ",
            "             -@@*'           .@@@'                ",
            "           ,*@%-              #%%                 ",
            "         '+@@*'     ,;=++++++=%%%;'.              ",
            "         ':;:     :#@#:,''''';%@@*####+=:         ",
            "                  ;@@#:,''',;#@%;  .':--'         ",
            "                   .:-++****+-:.                  ",
            "                                                  ",
            "                                                  ",
        );
        proof {
            assert(r.deep_view() =~= hiragana_art(character@));
        }
        return r;
    }
    if str_eq(character, "に") {
        let r = lines15(
            "                                                  ",
            "                                                  ",
            "            .                                     ",
            "           #%#=.                                  ",
            "          ;@@@'      ,==++++***********.          ",
            "          *%%+       ';;::::,,,,'''''''           ",
            "         .%%@:                                    ",
            "         ,@%@'                                    ",
            "         ,@%@.                                    ",
            "         '@%%'      .=%*-:'.                      ",
            "         .%@@:       ':-+###############*.        ",
            "          #%%-             ..''',,,,,,,,,         ",
            "          ...                                     ",
            "                                                  ",
            "                                                  ",
        );
        proof {
            assert(r.deep_view() =~= hiragana_art(character@));
        }
        return r;
    }
    if str_eq(character, "ぬ") {
        let r = lines15(
            "                                                  ",
            "                                                  ",
            "                         ,,''                     ",
            "            ,::,         #@@+                     ",
            "           .@@@=        '%%%,                     ",
            "            =%%# .,;-+**#%@%*###**+=:'            ",
            "            .%@%###*=;,=@@%'....':-*@@#=.         ",
            "          .;*@%@@+    ,%@#'         .+@@%.        ",
            "         ;%@*:.-%@#:.-@@+.           '%%@;        ",
            "        ;@@-    .-%@%@%;   .:--===-;,;%%%.        ",
            "        =@@:    .:%@#%%-  +@@;,',,:=%@@@%:.       ",
            "         -#@*+*#%#=, ''   ;#%+----=*%*-;#%=.      ",
            "           ',::,.           .,:;;;:'.             ",
            "                                                  ",
            "                                                  ",
        );
        proof {
            assert(r.deep_view() =~= hiragana_art(character@));
        }
        return r;
    }
    if str_eq(character, "ね") {
        let r = lines15(
            "                                                  ",
            "                                                  ",
            "               -==,                               ",
            "               #@@,                               ",
            "               *%%:.        ..''''.               ",
            "       '::;--==%@%%=..,;=+********#%*=,           ",
            "       :*+==-::#%%+=*#*+-:'.       :@@@:          ",
            "             .=%%%*=:.              =%%*          ",
            "           :*@@%%@,                 =@%*          ",
            "       .,=%@*:.*@@,      :=**+++++=-#%@=          ",
            "       :*#-'   *%%,     #@%,    .';%@@%%#*;       ",
            "               #@@,     ;*#+----=+##+:.';-'       ",
            "               -=='       .,:::::,.               ",
            "                                                  ",
            "                                                  ",
        );
        proof {
            assert(r.deep_view() =~= hiragana_art(character@));
        }
        return r;
    }
    if str_eq(character, "の") {
        let r = lines15(
            "                                                  ",
            "                                                  ",
            "                                                  ",
            "                ':-+***##**####*+-:'              ",
            "            ';*%%#+-:':@%*='.',;=*@@#=,           ",
            "          :*@@*:.     =%%@,       .;%@@+'         ",
            "         +@@#'       '@%@-          .#%@#.        ",
            "        =@%%.        #%@*            +%%@'        ",
            "        +@%#       .*@@*            :%@@+         ",
            "        .*@@*,   '-%@@=          '-#@@#;          ",
            "          :+%@%#%@@#='    .,:;=#%@@#=,            ",
            "            .':::,.       '-#%*=;,.               ",
            "                                                  ",
            "                                                  ",
            "                                                  ",
        );
        proof {
            assert(r.deep_view() =~= hiragana_art(character@));
        }
        return r;
    }
    if str_eq(character, "は") {
        let r = lines15(
            "                                                  ",
            "                                                  ",
            "                             .:::'                ",
            "           *##-              '@@@,                ",
            "          -@@#             ...#%%;''''',,'        ",
            "          #%%;    .*########**%@@%*******=        ",
            "         '@%@'     ''.....    ;@@*                ",
            "         :%%%.                :@@#                ",
            "         ;@@%            .... ;@@*                ",
            "         ;%%%       ,=*#******#%%%-;,.            ",
            "         :@%@.     :@@*.     .+@@#=*#%%*=;.       ",
            "         .%%%;     .-##*====+#%#=.   .,;+-.       ",
            "          ..          .,:;;;:,.                   ",
            "                                                  ",
            "                                                  ",
        );
        proof {
            assert(r.deep_view() =~= hiragana_art(character@));
        }
        return r;
    }
    if str_eq(character, "ひ") {
        let r = lines15(
            "                                                  ",
            "                                                  ",
            "                    .                             ",
            "         ,;--=+++*#%@=.       -+++                ",
            "         :*+=-;-#@@+,.        :@@@-               ",
            "              :#@*,            %%%@;              ",
            "            .*@@-              #@%%@*,            ",
            "            *@%;               #@%,-@@*:          ",
            "           :@%%               '%%@. '=@@%=.       ",
            "           ,@@%:             .*@@=    .;;'        ",
            "            :#@@*;'.     .':=@@%-                 ",
            "              ,-*#%%#####%%%*=:.                  ",
            "                   .'''''.                        ",
            "                                                  ",
            "                                                  ",
        );
        proof {
            assert(r.deep_view() =~= hiragana_art(character@));
        }
        return r;
    }
    if str_eq(character, "ふ") {
        let r = lines15(
            "                                                  ",
            "                                                  ",
            "                   ::'.                           ",
            "                  ;*%%%#*+=;:,                    ",
            "                      ',;=+**,                    ",
            "                 '-;:.                            ",
            "                .%@@@-'                           ",
            "                 .:-+#%%#+-,.    '-*=,            ",
            "              ,-=:.   .';+%@%*:  .:+%@%=,         ",
            "          '-*@@%+;.        ;@@@-     :*@@#-.      ",
            "       '=%@%*;'   '.       :@%@=       '=+;.      ",
            "        ':,      -%%%##***%@%#-                   ",
            "                   ',:;;;;:,'                     ",
            "                                                  ",
            "                                                  ",
        );
        proof {
            assert(r.deep_view() =~= hiragana_art(character@));
        }
        return r;
    }
    if str_eq(character, "へ") {
        let r = lines15(
            "                                                  ",
            "                                                  ",
            "                                                  ",
            "                                                  ",
            "                 ,-*#%#*=:.                       ",
            "             '-*@@%+-;;+%@@#=:.                   ",
            "        ',-*%@@*-'       ';+%@@%+;'               ",
            "       '=%@*-,               ':+#@@@*=:'          ",
            "          .                      .:=#@@@%+,       ",
            "                                     .,;'         ",
            "                                                  ",
            "                                                  ",
            "                                                  ",
            "                                                  ",
            "                                                  ",
        );
        proof {
            assert(r.deep_view() =~= hiragana_art(character@));
        }
        return r;
    }
    if str_eq(character, "ほ") {
        let r = lines15(
            "                                                  ",
            "                                                  ",
            "           ''..                                   ",
            "          ,@@@-    ,++++++**********#*#+          ",
            "          +%%*     '::::::,,,-@@%,''...           ",
            "          %%@:               '%%%,...''',.        ",
            "         ,@@%.    .###########%@@%###****;        ",
            "         :@@#      ....       +@@-                ",
            "         ;@@*          ..''''.+@@=                ",
            "         ;%%*      .;+#*++++**%%%%=-:'            ",
            "         ,@@@.     +@@;      '%@@=-+#%%#+;        ",
            "         .###:     '=##*++++*%#*;    .,;=,        ",
            "                      .',,,,'.                    ",
            "                                                  ",
            "                                                  ",
        );
        proof {
            assert(r.deep_view() =~= hiragana_art(character@));
        }
        return r;
    }
    if str_eq(character, "ま") {
        let r = lines15(
            "                                                  ",
            "                                                  ",
            "                        :==;                      ",
            "                        =@@-       .....          ",
            "         '+++++*********%%%#*########***,         ",
            "         .:,,,'''''''''.+@@-                      ",
            "             ..'''''''''+@@=,:::::::;,            ",
            "            :**********+#@@#+++++++==;            ",
            "                        =@@;                      ",
            "              :=********#%%#==-;,'.               ",
            "            '%@#,.     .#@@=:;=+*####+=,          ",
            "            .*%%-:,,,:-*@%=       .,;==.          ",
            "              ':-==+===;,.                        ",
            "                                                  ",
            "                                                  ",
        );
        proof {
            assert(r.deep_view() =~= hiragana_art(character@));
        }
        return r;
    }
    if str_eq(character, "み") {
        let r = lines15(
            "                                                  ",
            "                                                  ",
            "                      ..'                         ",
            "             ;==+++**+*%@%='                      ",
            "             '-;:,,' '#@@=.      ,:,'             ",
            "                    ,#@+'        +@@=             ",
            "             ',:;;;=@@%;,:,'.    +%%;             ",
            "         '-*#*+=-=@@%-;=+++*****+%%@-'.           ",
            "       '*@#;'   :#@+'        ..'*@@**###*+:       ",
            "       %@%'  .;#@#:            -%@+   .,;-.       ",
            "       ,*%%##%%+:           .;%@%;                ",
            "          .''.            .-%@#;.                 ",
            "                            .'                    ",
            "                                                  ",
            "                                                  ",
        );
        proof {
            assert(r.deep_view() =~= hiragana_art(character@));
        }
        return r;
    }
    if str_eq(character, "む") {
        let r = lines15(
            "                                                  ",
            "                                                  ",
            "                 :==:                             ",
            "                 +@@;                             ",
            "         ;---====#%%#+*****-    .-=:.             ",
            "         ;=-;;;::*@@=,,''''.    '-*%@%+;'         ",
            "           .,::::*%@:               ';*%@*'       ",
            "         -#@+-;;=#%%+                   ,.        ",
            "        ;@@;     -@@*                             ",
            "        ,#@#:,,;+%%;              ###'            ",
            "         .:=++=+@@#               #@@'            ",
            "                +@@+;:::::::::::;+@@*             ",
            "                 ':-===========+==;,              ",
            "                                                  ",
            "                                                  ",
        );
        proof {
            assert(r.deep_view() =~= hiragana_art(character@));
        }
        return r;
    }
    if str_eq(character, "め") {
        let r = lines15(
            "                                                  ",
            "                                                  ",
            "                          .:,,.                   ",
            "             :--,         =@@+                    ",
            "             ;@@+    .',:;%%@;:,'.                ",
            "              +%%-=****++@@@-==+*###+:.           ",
            "            .;#@@@+,.   +@%:      ':+@%+'         ",
            "          '+@@=:#@#'  '#@#'          ,%@%'        ",
            "         -@@+.  .=@@-;%%=.            +%@-        ",
            "        :@%*      :%@@@=             :%@%'        ",
            "        '#@%:. .,=%%+;+%*:       .,-#@%+'         ",
            "          :+##*##*-'   .     ;+*#%%*=:.           ",
            "              .              .::,.                ",
            "                                                  ",
            "                                                  ",
        );
        proof {
            assert(r.deep_view() =~= hiragana_art(character@));
        }
        return r;
    }
    if str_eq(character, "も") {
        let r = lines15(
            "                                                  ",
            "                                                  ",
            "                     :+++,                        ",
            "                     *@@#                         ",
            "             ''''''',%%@;'''''                    ",
            "             +******%@@%******.                   ",
            "                    #@%,                          ",
            "           :;;;;;;;-@@@-;;;;;;'                   ",
            "           ;-------%@@+-------,   '*#*.           ",
            "                   #%%'            *@@=           ",
            "                  .%@@:            *@@=           ",
            "                   ,+%@#=;::,:::-=%@#-            ",
            "                     .,-++******+=;'              ",
            "                                                  ",
            "                                                  ",
        );
        proof {
            assert(r.deep_view() =~= hiragana_art(character@));
        }
        return r;
    }
    if str_eq(character, "や") {
        let r = lines15(
            "                                                  ",
            "                                                  ",
            "                           ';;;.                  ",
            "               +#%=        ;@@*                   ",
            "               :@@#      ',*@@*-====-;'.          ",
            "               .#%@=-+*##**=-;;;::;;=*@%+:        ",
            "        ':;=+*###%%@*:,'.             .*@@;       ",
            "        '+*=-:,. ,%%#'      '          *@@-       ",
            "                  ,%@%:    =%%#*+===+*%%*;        ",
            "                   ,%@%;    .',:;---;:'.          ",
            "                    '#@@=                         ",
            "                     .+@@#,                       ",
            "                       :,'.                       ",
            "                                                  ",
            "                                                  ",
        );
        proof {
            assert(r.deep_view() =~= hiragana_art(character@));
        }
        return r;
    }
    if str_eq(character, "ゆ") {
        let r = lines15(
            "                                                  ",
            "                                                  ",
            "                        ,**+                      ",
            "         ::,'           ,@@%...                   ",
            "        ,@@@:     .,-=+**%%%#*****+-,             ",
            "        *%%-   ,=##*=;,'.#@@:   .,=%@#;           ",
            "       '@@%.'=%%+:.      +@@;      .*@@;          ",
            "       :%%%+@#;    '     +@@;       =%@+          ",
            "       :@%@@;    '*@#;.  +%%:      :%@%'          ",
            "       .%%%=      .:+%%*+%@@-;;-=*%%*-.           ",
            "        +@@*          .-@@@=----;:'.              ",
            "        .:,'         ,+%@*,                       ",
            "                    '=++:                         ",
            "                                                  ",
            "                                                  ",
        );
        proof {
            assert(r.deep_view() =~= hiragana_art(character@));
        }
        return r;
    }
    if str_eq(character, "よ") {
        let r = lines15(
            "                                                  ",
            "                                                  ",
            "                      :::,                        ",
            "                      #@@-                        ",
            "                      -%%=                        ",
            "                      :@%%+++*******#-            ",
            "                      '@%@;,,,,,'''..             ",
            "                       #@%'                       ",
            "              .,,:::::,*%%;                       ",
            "           :+##*+======%%@%##*+=-:,.              ",
            "          ;@@+        ,%@@,.',;-+*#%%#=.          ",
            "          .-#%*+====+#@#=,         .,;,           ",
            "             .,:;;;::,.                           ",
            "                                                  ",
            "                                                  ",
        );
        proof {
            assert(r.deep_view() =~= hiragana_art(character@));
        }
        return r;
    }
    if str_eq(character, "ら") {
        let r = lines15(
            "                                                  ",
            "                                                  ",
            "                 '-;:,'.                          ",
            "                 :-=+*####*+=,                    ",
            "                        ',:--.                    ",
            "               **+;                               ",
            "              ,@@@'                               ",
            "              =%%+   .,:-==+++++=-:'              ",
            "              %%%+-*##*=-;:,,,,:;+%@#-            ",
            "             :@@@#+:'              *@@-           ",
            "             .'''                '-%@#'           ",
            "                    :=======++**#%#+:             ",
            "                    .-------;;:,'.                ",
            "                                                  ",
            "                                                  ",
        );
        proof {
            assert(r.deep_view() =~= hiragana_art(character@));
        }
        return r;
    }
    if str_eq(character, "り") {
        let r = lines15(
            "                                                  ",
            "                                                  ",
            "               .:::'           ,===.              ",
            "               -@@%.           ,@@@.              ",
            "               +%%-            .%%%'              ",
            "               *@@;            .%@@,              ",
            "               *%@;    ',       #@%,              ",
            "               +@@= '-#@#;      %%@,              ",
            "               ,#%%#%#=,       ;%@#               ",
            "                 .'.         .=@@*'               ",
            "                          .:+@@*;                 ",
            "                      ,-+#@%*-'                   ",
            "                      ';=;'                       ",
            "                                                  ",
            "                                                  ",
        );
        proof {
            assert(r.deep_view() =~= hiragana_art(character@));
        }
        return r;
    }
    if str_eq(character, "る") {
        let r = lines15(
            "                                                  ",
            "                                                  ",
            "                ',,,,,,::::::;=-,                 ",
            "                :#*****+==*@@@%+;.                ",
            "                        :+%#=,                    ",
            "                    .:+%#=,                       ",
            "                 .:+%@@*=--====--:,.              ",
            "              .;*@@%+-::::::,::;-+%@*;.           ",
            "           ,-#@@*;.                ;@@#'          ",
            "          .;*+:.  :+**++*#+:        *%@-          ",
            "                 ;@@-    '*@#'    .-@@*.          ",
            "                  ;*%*-;:,;@@@--+*%#=:            ",
            "                    .:;-=======-;,.               ",
            "                                                  ",
            "                                                  ",
        );
        proof {
            assert(r.deep_view() =~= hiragana_art(character@));
        }
        return r;
    }
    if str_eq(character, "れ") {
        let r = lines15(
            "                                                  ",
            "                                                  ",
            "                =++'                              ",
            "               .@@@                               ",
            "               .%%%,.      ',::,'                 ",
            "        ,;-=+***%%%#:.';+###**#@@*'               ",
            "        ,+=-:,..%@%=+#%*-,.    #%@:               ",
            "              '+%%%#=,        .%@%'               ",
            "           .;#@%%@%.          ,@@#                ",
            "        .:+@@*:.%@%.          -%%+      ;-,       ",
            "       -%@#-.  .%%%.          =@@*''',-#@%-       ",
            "       .,,     .@@@.           ;+#####*=,         ",
            "                =+=                               ",
            "                                                  ",
            "                                                  ",
        );
        proof {
            assert(r.deep_view() =~= hiragana_art(character@));
        }
        return r;
    }
    if str_eq(character, "ろ") {
        let r = lines15(
            "                                                  ",
            "                                                  ",
            "                      ..'''',,.                   ",
            "              .+######**+#%@@@+'                  ",
            "               .'''.   '-%@#-'                    ",
            "                     ,+%%='                       ",
            "                  ,=%@@+;:;------;,.              ",
            "               ,=%@@%*=---;;::;;-=*%#=,           ",
            "           .;+%@#=:.               '#@@;          ",
            "           .;*='                    +%@=          ",
            "                                .,;#@%=           ",
            "                    ,=+++++***####*=:.            ",
            "                     ,:::::,,''.                  ",
            "                                                  ",
            "                                                  ",
        );
        proof {
            assert(r.deep_view() =~= hiragana_art(character@));
        }
        return r;
    }
    if str_eq(character, "わ") {
        let r = lines15(
            "                                                  ",
            "                                                  ",
            "               .*#*'                              ",
            "                @@%                               ",
            "             ..,%%%-:'                            ",
            "        +**##***%@%#-'.':-=+*********=:.          ",
            "        ',''.   %%%-=*##+=;,'.....',-#@%+'        ",
            "              :#@%%#=:.               -@@%'       ",
            "           ,=%@#%@%                   :%%@,       ",
            "       .,=%@%='.%@%.                '=@@%-        ",
            "       ,+%+,   .%%%.          .,;=*%@%+;.         ",
            "               .@@@.        :#%##+-:'             ",
            "               .*#*.         ..                   ",
            "                                                  ",
            "                                                  ",
        );
        proof {
            assert(r.deep_view() =~= hiragana_art(character@));
        }
        return r;
    }
    if str_eq(character, "を") {
        let r = lines15(
            "                                                  ",
            "                                                  ",
            "                       ;*+;                       ",
            "                      ;@@%,.''',,,::.             ",
            "           :*******+*#@@#*+****+++++,             ",
            "            ''..  '-%@*:                          ",
            "               .:+@@@%++**+-,      .',:;.         ",
            "           ,-+#@%*-:'. ..:%@@-=+**####**;         ",
            "           ,-+;'    .:-=+*#%%#-:,'.               ",
            "                .;+%%*=;,.=@@-                    ",
            "               =%@#,      ,--,                    ",
            "               +@@#;,''''............             ",
            "                ';=*****************=             ",
            "                                                  ",
            "                                                  ",
        );
        proof {
            assert(r.deep_view() =~= hiragana_art(character@));
        }
        return r;
    }
    if str_eq(character, "ん") {
        let r = lines15(
            "                                                  ",
            "                                                  ",
            "                      .'.                         ",
            "                     :%@%=,                       ",
            "                   '*@@+,                         ",
            "                 .=@@+,                           ",
            "                ;#@+'                             ",
            "              ,*@@#==+**=;.           ,-:,        ",
            "            ,+@@#=;:,,:*@@#          '%@@+        ",
            "          '+@@+,        %%@;        ,%@@=         ",
            "        ,+@@*,          ;@@%.     ,+@@#:          ",
            "        :-=-             -#@%***#%%#=:            ",
            "                           ',:::,'                ",
            "                                                  ",
            "                                                  ",
        );
        proof {
            assert(r.deep_view() =~= hiragana_art(character@));
        }
        return r;
    }
    let r = fallback_box(character);
    proof {
        assert(r.deep_view() == hiragana_art(character@));
    }
    r
}

/// The picture of one katakana: for the 46 basic kana the hand-drawn
/// fifteen-row block that `katakana_art` fixes row for row, for any other
/// string the boxed fallback frame.
pub fn get_katakana_ascii_art(character: &str) -> (r: Vec<String>)
    ensures
        r.deep_view() == katakana_art(character@),
        known_katakana(character@) ==> r@.len() == 15,
        !known_katakana(character@) ==> r.deep_view() == fallback_art(character@),
{
    if str_eq(character, "ア") {
        let r = lines15(
            "                                                  ",
            "                                                  ",
            "                                      .           ",
            "         =***####################*##%%@+,         ",
            "         '::,,,,,,,,'',,,,''.. .,=%@@*-'          ",
            "                      ,###,  '-*@@*;'             ",
            "                      :@@@;=%@%+:.                ",
            "                      ;%%@. ''                    ",
            "                     ,%@@;                        ",
            "                   ,+@@#:                         ",
            "              .':+%@@+:                           ",
            "              ;#%#=,.                             ",
            "                                                  ",
            "                                                  ",
            "                                                  ",
        );
        proof {
            assert(r.deep_view() =~= katakana_art(character@));
        }
        return r;
    }
    if str_eq(character, "イ") {
        let r = lines15(
            "                                                  ",
            "                                                  ",
            "                                 :,.              ",
            "                              '-%@@+:             ",
            "                           ,-#@@*;.               ",
            "                       ';+#@%+:.                  ",
            "                  ':-*%@@@@%                      ",
            "            ',;+#%@%#=;'=%%#                      ",
            "         ,+%@%#+-:'     =@@#                      ",
            "           ''           =@@#                      ",
            "                        =%%#                      ",
            "                        +@@%                      ",
            "                        ,;;;                      ",
            "                                                  ",
            "                                                  ",
        );
        proof {
            assert(r.deep_view() =~= katakana_art(character@));
        }
        return r;
    }
    if str_eq(character, "ウ") {
        let r = lines15(
            "                                                  ",
            "                                                  ",
            "                      .+++;                       ",
            "                      .@@@:                       ",
            "          ':::;;;;;;;;-@@@+;;;;;;;;;::,           ",
            "          ;@@@*++++++++===++++++++++@@@#          ",
            "          ,%%%'                    '%%@+          ",
            "          '@@@;                   '#%@#.          ",
            "           :::'                  ;%@@+.           ",
            "                              '-#@@*:             ",
            "                          ':=#@@#-'               ",
            "                     ,-=*%@@#+:.                  ",
            "                     ';+=;,.                      ",
            "                                                  ",
            "                                                  ",
        );
        proof {
            assert(r.deep_view() =~= katakana_art(character@));
        }
        return r;
    }
    if str_eq(character, "エ") {
        let r = lines15(
            "                                                  ",
            "                                                  ",
            "                                                  ",
            "            ,::::::::::,,,:::::::::::'            ",
            "            =**********@@@%**********:            ",
            "                       *%%+                       ",
            "                       #@@+                       ",
            "                       #@@+                       ",
            "                       *%%+                       ",
            "         :+++++++++++++@@@%+++++++++++++;         ",
            "         ';;;;;;;;;;;;;::::;;;;;;;;;;;;;,         ",
            "                                                  ",
            "                                                  ",
            "                                                  ",
            "                                                  ",
        );
        proof {
            assert(r.deep_view() =~= katakana_art(character@));
        }
        return r;
    }
    if str_eq(character, "オ") {
        let r = lines15(
            "                                                  ",
            "                                                  ",
            "                        .===:                     ",
            "                        '@@@;                     ",
            "         ...............,%%%;............         ",
            "        =############*#%%@%@%############;        ",
            "               ..   .;#@@%%@; .                   ",
            "                  '-%@%-:%%@;                     ",
            "              .,=%@@+:  .@%@;                     ",
            "          .,-*@@%+:.    '@%@;                     ",
            "       .;*@@%*-'        .%%%;                     ",
            "         ':'        ;;--*@@@:                     ",
            "                    ;+++==-,                      ",
            "                                                  ",
            "                                                  ",
        );
        proof {
            assert(r.deep_view() =~= katakana_art(character@));
        }
        return r;
    }
    if str_eq(character, "カ") {
        let r = lines15(
            "                                                  ",
            "                                                  ",
            "                     ';;;'                        ",
            "                     ;@@@'                        ",
            "                     ;%%%.                        ",
            "          =*+********#@%@#********###;            ",
            "          ',,,,''''''*%%#''''....'@@@-            ",
            "                    ,%@@,        .%%%;            ",
            "                   -@@%:         .%%%;            ",
            "                .-%@%=.          ,%%@,            ",
            "             ';*@@#-'     .    .,#@@+             ",
            "          '=%@%*-'        *%###%%#*;              ",
            "           ':,            .''''..                 ",
            "                                                  ",
            "                                                  ",
        );
        proof {
            assert(r.deep_view() =~= katakana_art(character@));
        }
        return r;
    }
    if str_eq(character, "キ") {
        let r = lines15(
            "                                                  ",
            "                                                  ",
            "                    ;-=;                          ",
            "                    ;@@%.                         ",
            "            ...''',,,%@%*;-==+++***#;             ",
            "           -####*****+#@@@--;;::,,,'.             ",
            "            .          #%%:                       ",
            "                   ..'.-@%@::;;--===+++***,       ",
            "        :++****#######***@%@*+==---;;:::,,.       ",
            "        .::,,'''...      +@%+                     ",
            "                         .#%@-                    ",
            "                          ,@@@;                   ",
            "                           :=-;                   ",
            "                                                  ",
            "                                                  ",
        );
        proof {
            assert(r.deep_view() =~= katakana_art(character@));
        }
        return r;
    }
    if str_eq(character, "ク") {
        let r = lines15(
            "                                                  ",
            "                                                  ",
            "                   ,=;;.                          ",
            "                  :%@@-                           ",
            "                .=@@@%+**********##-:             ",
            "              '=@@#-,,,,,,,,,:,,#@@@;             ",
            "           ';*@@*:             -%%@;              ",
            "         .-#@#-'             ,*@@%:               ",
            "            .              ,+@@%=.                ",
            "                        ,-#@@#-.                  ",
            "                   .,-*%@@*-'                     ",
            "              ';=*%@@%*-,.                        ",
            "               ,-=;,.                             ",
            "                                                  ",
            "                                                  ",
        );
        proof {
            assert(r.deep_view() =~= katakana_art(character@));
        }
        return r;
    }
    if str_eq(character, "ケ") {
        let r = lines15(
            "                                                  ",
            "                                                  ",
            "                 ;;:,.                            ",
            "                -@@@-                             ",
            "               -@%#:                              ",
            "             ,*@@@%*########****#######*#;        ",
            "           ,+@@*:'','''''','+@@@;',''''''.        ",
            "         ;#@%+,            '#%@=                  ",
            "         .',.             ;%@@-                   ",
            "                        :*@@*,                    ",
            "                     ,=%@%+,                      ",
            "                 .;+%@@+:.                        ",
            "                  ':;,.                           ",
            "                                                  ",
            "                                                  ",
        );
        proof {
            assert(r.deep_view() =~= katakana_art(character@));
        }
        return r;
    }
    if str_eq(character, "コ") {
        let r = lines15(
            "                                                  ",
            "                                                  ",
            "                                                  ",
            "            ........................              ",
            "           =#####################%%%-             ",
            "                                .%@@-             ",
            "                                 %%%-             ",
            "                                .%%@-             ",
            "                                .%%%-             ",
            "           =#####################@@@=             ",
            "           .'''''''''''''''''''''===:             ",
            "                                                  ",
            "                                                  ",
            "                                                  ",
            "                                                  ",
        );
        proof {
            assert(r.deep_view() =~= katakana_art(character@));
        }
        return r;
    }
    if str_eq(character, "サ") {
        let r = lines15(
            "                                                  ",
            "                                                  ",
            "                   .         .:::,                ",
            "               .#%%-         :@@@:                ",
            "                #@@:         ,%%%'                ",
            "       :========%%%*=========+@%@+========,       ",
            "       :--------%%%*---------=@%%*--------,       ",
            "                *@@-         .@%@:                ",
            "                =##-         -%@%.                ",
            "                           '+@@*'                 ",
            "                       .:=#@%+:                   ",
            "                   :+#%%%*-,                      ",
            "                    ,:,.                          ",
            "                                                  ",
            "                                                  ",
        );
        proof {
            assert(r.deep_view() =~= katakana_art(character@));
        }
        return r;
    }
    if str_eq(character, "シ") {
        let r = lines15(
            "                                                  ",
            "                                                  ",
            "                ,;,.                              ",
            "               '+%@@%*-:'                         ",
            "                  .,-+%*,                         ",
            "           ,=+;,.                      ,.         ",
            "           ;=*%@@%*-'               .;#@@=        ",
            "               ':=+:             .:+@@%=,         ",
            "                             .,=#@@%+:.           ",
            "                        ':-+%@@%+;'               ",
            "              .,,:;=+*%%@%#+-,.                   ",
            "              '+@@#*+-;,.                         ",
            "                ..                                ",
            "                                                  ",
            "                                                  ",
        );
        proof {
            assert(r.deep_view() =~= katakana_art(character@));
        }
        return r;
    }
    if str_eq(character, "ス") {
        let r = lines15(
            "                                                  ",
            "                                                  ",
            "                                                  ",
            "            ::;;;;;------====-==-,.               ",
            "            +****+++++====--=@@@@='               ",
            "                           :#@%-.                 ",
            "                        ,=%@*;.                   ",
            "                     ,-#@@@%;.                    ",
            "                 .:+%@%+:,-*@@%+;'                ",
            "             ';+%@@#-,      .,=#@@%+:.            ",
            "        .:=*%@%*-,.             .;+%@@#-.         ",
            "        .:=+;'                      ,=-,          ",
            "                                                  ",
            "                                                  ",
            "                                                  ",
        );
        proof {
            assert(r.deep_view() =~= katakana_art(character@));
        }
        return r;
    }
    if str_eq(character, "セ") {
        let r = lines15(
            "                                                  ",
            "                                                  ",
            "                   ...                            ",
            "                  :%%%,                           ",
            "                  :@%@.                           ",
            "                  ;%%%:',::;--==+++**%*;.         ",
            "        :-=++**###%@%@##**++==-;:;*@@%=,          ",
            "        '+==-;::,'-@%@'        .-%@*;.            ",
            "                  :@%@'      :#@@+,               ",
            "                  :%%%.      .':.                 ",
            "                  :@@@:                           ",
            "                   -*%%###############;           ",
            "                      ................            ",
            "                                                  ",
            "                                                  ",
        );
        proof {
            assert(r.deep_view() =~= katakana_art(character@));
        }
        return r;
    }
    if str_eq(character, "ソ") {
        let r = lines15(
            "                                                  ",
            "                                                  ",
            "                                                  ",
            "            ,=**:                 .**+=.          ",
            "            .:*@@#;               =@@@;           ",
            "               :#@@#,            :@%@+            ",
            "                 :'.            :%%@+             ",
            "                              '=@@%;              ",
            "                           .:*@@#-.               ",
            "                       .:=#@@%=,                  ",
            "                 .,;=*%@%#=:'                     ",
            "                 ,=#*=;'                          ",
            "                                                  ",
            "                                                  ",
            "                                                  ",
        );
        proof {
            assert(r.deep_view() =~= katakana_art(character@));
        }
        return r;
    }
    if str_eq(character, "タ") {
        let r = lines15(
            "                                                  ",
            "                                                  ",
            "                   .=-;:.                         ",
            "                  '#@@*'                          ",
            "                .-@@@@***********#*-              ",
            "              .-%@%-'',,,,,,,,,*@@%,              ",
            "           .:+@@#;. ,,.       :%@%,               ",
            "          :*@%=,   :+#%%%*=:,=@%*.                ",
            "            .         .':=%@@@@%;'.               ",
            "                        ,+%@#-=*@%-               ",
            "                   .:-#@@%=,    ..                ",
            "             .,;=*%@@#+;'                         ",
            "              ,;+=;,.                             ",
            "                                                  ",
            "                                                  ",
        );
        proof {
            assert(r.deep_view() =~= katakana_art(character@));
        }
        return r;
    }
    if str_eq(character, "チ") {
        let r = lines15(
            "                                                  ",
            "                                                  ",
            "                                 .'               ",
            "            :::;;;;;---====+**#####+'             ",
            "            ,+++++====--*@@@;,,'..  .             ",
            "                        :%%%                      ",
            "        .*************###@%%#***********+         ",
            "         ,,,,,,,,,,,,,,,=@%@:,,,,,,,,,,,,         ",
            "                        *%@+                      ",
            "                      ;%@@=                       ",
            "                  .:+%@#='                        ",
            "                :+%%*-,                           ",
            "                  .                               ",
            "                                                  ",
            "                                                  ",
        );
        proof {
            assert(r.deep_view() =~= katakana_art(character@));
        }
        return r;
    }
    if str_eq(character, "ツ") {
        let r = lines15(
            "                                                  ",
            "                                                  ",
            "                                                  ",
            "            .'      :+#*;           :=-;,         ",
            "          '*@@*,    .;#@@%;        .%@@@'         ",
            "           .-%@@*'     -##*:       +%%@:          ",
            "             '**+;                =@@@;           ",
            "                                ,*@@#,            ",
            "                             .:*@@#-              ",
            "                         ':=*@@%=,                ",
            "                 ',:;=*#%@%#+;'                   ",
            "                 :+%#*=;:'                        ",
            "                                                  ",
            "                                                  ",
            "                                                  ",
        );
        proof {
            assert(r.deep_view() =~= katakana_art(character@));
        }
        return r;
    }
    if str_eq(character, "テ") {
        let r = lines15(
            "                                                  ",
            "                                                  ",
            "              .,',,,,,,,,,,,,,,,,',               ",
            "              :####################,              ",
            "                                                  ",
            "         ::::::::::::::::::::::::::::::::         ",
            "        .+*+************#@@@**********+*+         ",
            "                        ;%%%                      ",
            "                        *%@*                      ",
            "                      .+@@*.                      ",
            "                    ,=@@#-                        ",
            "                  ,+%@+:.                         ",
            "                    ..                            ",
            "                                                  ",
            "                                                  ",
        );
        proof {
            assert(r.deep_view() =~= katakana_art(character@));
        }
        return r;
    }
    if str_eq(character, "ト") {
        let r = lines15(
            "                                                  ",
            "                                                  ",
            "                    ''''                          ",
            "                    #@@*                          ",
            "                    *%%+                          ",
            "                    *@@+                          ",
            "                    *@%%#*+-;:'.                  ",
            "                    *@%*:-=+#%%%%#*=;:'           ",
            "                    *@@+       ',;=*##:           ",
            "                    *@@+                          ",
            "                    *%%+                          ",
            "                    #@@*                          ",
            "                    .''.                          ",
            "                                                  ",
            "                                                  ",
        );
        proof {
            assert(r.deep_view() =~= katakana_art(character@));
        }
        return r;
    }
    if str_eq(character, "ナ") {
        let r = lines15(
            "                                                  ",
            "                                                  ",
            "                       :;;:                       ",
            "                       #@@*                       ",
            "                       *%%+                       ",
            "       .+++++++++++++++%@@#++++++++++++++'        ",
            "       .;;;;;;;;;;;;;;;*@@%;;;;;;;;;;;;;;.        ",
            "                       +@%*                       ",
            "                      ,%%@;                       ",
            "                     ;%@@-                        ",
            "                 .,=%@%+'                         ",
            "              ,=#@@%+:.                           ",
            "              .,;:'                               ",
            "                                                  ",
            "                                                  ",
        );
        proof {
            assert(r.deep_view() =~= katakana_art(character@));
        }
        return r;
    }
    if str_eq(character, "ニ") {
        let r = lines15(
            "                                                  ",
            "                                                  ",
            "                                                  ",
            "             ',,,,,,,,,,,,,,,,,,,,,,              ",
            "             +**********************.             ",
            "                                                  ",
            "                                                  ",
            "                                                  ",
            "         .'''''''''''''''''''''''''''''''.        ",
            "         +###############################;        ",
            "                                                  ",
            "                                                  ",
            "                                                  ",
            "                                                  ",
            "                                                  ",
        );
        proof {
            assert(r.deep_view() =~= katakana_art(character@));
        }
        return r;
    }
    if str_eq(character, "ヌ") {
        let r = lines15(
            "                                                  ",
            "                                                  ",
            "                                                  ",
            "            :---------=============:.             ",
            "            ;====---------;;;;;#@@@='             ",
            "                 ..          .=%@*'               ",
            "                :*%%#+-,.  '=@@#:                 ",
            "                  .';=*#%**@@*,                   ",
            "                     .;#@@##@%*=:.                ",
            "                ':=*%@#=:.  ';+%@@*-,.            ",
            "         .:-=*#%%#+-,.          ';*@#;            ",
            "          ,=+-:'.                                 ",
            "                                                  ",
            "                                                  ",
            "                                                  ",
        );
        proof {
            assert(r.deep_view() =~= katakana_art(character@));
        }
        return r;
    }
    if str_eq(character, "ネ") {
        let r = lines15(
            "                                                  ",
            "                                                  ",
            "                      '---'                       ",
            "                      ,@@@'                       ",
            "           .;;;;;;;;--+@@@+-----=+;.              ",
            "           .++++++=====-;;;-*@@@@*-'              ",
            "                        .:=##*-'                  ",
            "                   ':=*%@@+:. '-=;,.              ",
            "            .,:-+#%%#++@%%'   :=*%@@#+;'.         ",
            "         ;*%%%#+-:'   ,%%@,       ':+#@@=.        ",
            "          ',.         :%%%,           ..          ",
            "                      :@@@,                       ",
            "                      '---.                       ",
            "                                                  ",
            "                                                  ",
        );
        proof {
            assert(r.deep_view() =~= katakana_art(character@));
        }
        return r;
    }
    if str_eq(character, "ノ") {
        let r = lines15(
            "                                                  ",
            "                                                  ",
            "                                                  ",
            "                             -+-;,                ",
            "                            =@@@#,                ",
            "                          '*@@%-                  ",
            "                        .-%@@*,                   ",
            "                      .-%@@*:                     ",
            "                   .;*@@%=,                       ",
            "               .:=#@@%+:.                         ",
            "          .:-+#@@@*-,                             ",
            "          .:-*+;'                                 ",
            "                                                  ",
            "                                                  ",
            "                                                  ",
        );
        proof {
            assert(r.deep_view() =~= katakana_art(character@));
        }
        return r;
    }
    if str_eq(character, "ハ") {
        let r = lines15(
            "                                                  ",
            "                                                  ",
            "                                                  ",
            "                               .                  ",
            "                -;,'         ;#@#-.               ",
            "               +@@@-.        .:+@@%='             ",
            "             .*@@%;             ,+@@%+'           ",
            "            ;%@@*'                :#@@%-          ",
            "          :*@@#;                    =@%@#'        ",
            "       '-%@@#;.                      ;%@@@:       ",
            "       .:-=:                          ,;,''       ",
            "                                                  ",
            "                                                  ",
            "                                                  ",
            "                                                  ",
        );
        proof {
            assert(r.deep_view() =~= katakana_art(character@));
        }
        return r;
    }
    if str_eq(character, "ヒ") {
        let r = lines15(
            "                                                  ",
            "                                                  ",
            "                                                  ",
            "              +**=                                ",
            "              %@@+                .'              ",
            "              #%%+..'',,:;--=+*##%%%#'            ",
            "              #@%%%%%###**++=-;:,,'...            ",
            "              #@@+..                              ",
            "              #@@=                                ",
            "              #%%=                                ",
            "              #@@#:,,,,,,,,,,,,,,,,,,'            ",
            "              '-=********************:            ",
            "                                                  ",
            "                                                  ",
            "                                                  ",
        );
        proof {
            assert(r.deep_view() =~= katakana_art(character@));
        }
        return r;
    }
    if str_eq(character, "フ") {
        let r = lines15(
            "                                                  ",
            "                                                  ",
            "                                                  ",
            "           '=========================+;.          ",
            "           .-----------------------@@@@'          ",
            "                                  '%%@+           ",
            "                                 :%@@+            ",
            "                               ,+@@%;             ",
            "                            ,-#@@*;.              ",
            "                      .,;=#@@@*-'                 ",
            "               ,-=+*#%@@%#+;'                     ",
            "               .;++=;:'.                          ",
            "                                                  ",
            "                                                  ",
            "                                                  ",
        );
        proof {
            assert(r.deep_view() =~= katakana_art(character@));
        }
        return r;
    }
    if str_eq(character, "ヘ") {
        let r = lines15(
            "                                                  ",
            "                                                  ",
            "                                                  ",
            "                    .''.                          ",
            "                 '-#@@@@#=:.                      ",
            "             .:=%@@*:',;*@@@*-,                   ",
            "          ';*@@@*:.       ,=#@@%*;'               ",
            "        '+@@@*;.             .:+%@@%+;'           ",
            "          ,:.                    '-*@@@%+:        ",
            "                                    .,=+;'        ",
            "                                                  ",
            "                                                  ",
            "                                                  ",
            "                                                  ",
            "                                                  ",
        );
        proof {
            assert(r.deep_view() =~= katakana_art(character@));
        }
        return r;
    }
    if str_eq(character, "ホ") {
        let r = lines15(
            "                                                  ",
            "                                                  ",
            "                       -==;                       ",
            "                       @@@=                       ",
            "                      .%%%-                       ",
            "        .##############%@@%#############*         ",
            "         .......  ....'%%@=..... .. .....         ",
            "             .=*+;.    %%@-    .-**;.             ",
            "            ;%@@+'    .%%@-    .:+%@@*;.          ",
            "         .;#@@*,      .%%@-        :*@@%=,        ",
            "        .+%@*,        .%%%-          ,+#*-.       ",
            "           .          .@@@=                       ",
            "                       -==,                       ",
            "                                                  ",
            "                                                  ",
        );
        proof {
            assert(r.deep_view() =~= katakana_art(character@));
        }
        return r;
    }
    if str_eq(character, "マ") {
        let r = lines15(
            "                                                  ",
            "                                                  ",
            "                                                  ",
            "         '''''''''''',,,,,,,,,,::,,,,:,           ",
            "         +%%%%%%%%%##########***+#@@@@%-.         ",
            "          ..                   '-%@%+:.           ",
            "                  '         .;#@@#;'              ",
            "                ,*@@#=:. .;*@@#-'                 ",
            "                  ':+%@@#%@%-.                    ",
            "                      ';+%@@+;'                   ",
            "                          ,=%@@+'                 ",
            "                             ,'                   ",
            "                                                  ",
            "                                                  ",
            "                                                  ",
        );
        proof {
            assert(r.deep_view() =~= katakana_art(character@));
        }
        return r;
    }
    if str_eq(character, "ミ") {
        let r = lines15(
            "                                                  ",
            "                                                  ",
            "                                                  ",
            "               ;%%%###**+==-;:,'..                ",
            "               ',,::;;-=++*##%%@@*                ",
            "                               .'.                ",
            "                +###**+=-;:,'.                    ",
            "                ,::;-==+*##%%@%%#*,               ",
            "                             .':--                ",
            "              ;%###*++=-;:,'.                     ",
            "              ,::;-=+**#%%@@@@%#*+-;.             ",
            "                          .',:;=+*%#.             ",
            "                                                  ",
            "                                                  ",
            "                                                  ",
        );
        proof {
            assert(r.deep_view() =~= katakana_art(character@));
        }
        return r;
    }
    if str_eq(character, "ム") {
        let r = lines15(
            "                                                  ",
            "                                                  ",
            "                       .                          ",
            "                      -%%#:                       ",
            "                     ;@%@;                        ",
            "                    ;@%@;                         ",
            "                   -@@%:                          ",
            "                  +@@#'       ,;-,                ",
            "                '#@@=         ;*@@#-'             ",
            "               ;%@#:            ,=%@@*:           ",
            "        -++***#@@@%*#############*###@@#-'        ",
            "        '*=---;;::::::,,,''''.....   ,*%#=.       ",
            "                                       .          ",
            "                                                  ",
            "                                                  ",
        );
        proof {
            assert(r.deep_view() =~= katakana_art(character@));
        }
        return r;
    }
    if str_eq(character, "メ") {
        let r = lines15(
            "                                                  ",
            "                                                  ",
            "                                                  ",
            "                             -%#*:                ",
            "                            :@%@=                 ",
            "                 ,=;,'     ;@@@-                  ",
            "                .-*#%@%#+;=@%#,                   ",
            "                     .,+@@@@@#-:.                 ",
            "                     ,+%@#-,;+%@@%-               ",
            "                 ,-*@@%=,      ';;.               ",
            "           ',;=#@@%*-'                            ",
            "          .;*%#+;'                                ",
            "                                                  ",
            "                                                  ",
            "                                                  ",
        );
        proof {
            assert(r.deep_view() =~= katakana_art(character@));
        }
        return r;
    }
    if str_eq(character, "モ") {
        let r = lines15(
            "                                                  ",
            "                                                  ",
            "                                                  ",
            "           '=========----===========:             ",
            "           '---------%@@%-----------,             ",
            "                     +%%*                         ",
            "        .;;;;;;;;;;;;#@@#;;;;;;;;;;;;;;;'         ",
            "        '++++++++++++%@@%+++++++++++++++:         ",
            "                     +@@*                         ",
            "                     *@%*                         ",
            "                     -@@@*++++++++++++-           ",
            "                      '::;;;;;;;;;;;;;:           ",
            "                                                  ",
            "                                                  ",
            "                                                  ",
        );
        proof {
            assert(r.deep_view() =~= katakana_art(character@));
        }
        return r;
    }
    if str_eq(character, "ヤ") {
        let r = lines15(
            "                                                  ",
            "                                                  ",
            "                ,,::                              ",
            "                ;@@@=                             ",
            "                 '#%@+     .'',:;-=++*##+;.       ",
            "              .',,=@@@*+*####**++-;;*@@@#:.       ",
            "        -**######*+=*@@@;..       :*@@+,          ",
            "        ';:,'..      +@%#'     .-%@%='            ",
            "                      +@@%,     ',:.              ",
            "                       =@%@:                      ",
            "                        -@%@-                     ",
            "                         ;@@@=                    ",
            "                          ,:''                    ",
            "                                                  ",
            "                                                  ",
        );
        proof {
            assert(r.deep_view() =~= katakana_art(character@));
        }
        return r;
    }
    if str_eq(character, "ユ") {
        let r = lines15(
            "                                                  ",
            "                                                  ",
            "                                                  ",
            "             ...................                  ",
            "             =##############%%%%,                 ",
            "                            ;@%@'                 ",
            "                            -%%%.                 ",
            "                            +@@%.                 ",
            "                            *%%#                  ",
            "        ++++++++++++++++++++@@@@+++++++++-        ",
            "        :;;;;;;;;;;;;;;;;;;;::::;;;;;;;;;,        ",
            "                                                  ",
            "                                                  ",
            "                                                  ",
            "                                                  ",
        );
        proof {
            assert(r.deep_view() =~= katakana_art(character@));
        }
        return r;
    }
    if str_eq(character, "ヨ") {
        let r = lines15(
            "                                                  ",
            "                                                  ",
            "                                                  ",
            "             +*******************+++,             ",
            "             ,::::::::::::::::::-@@@;             ",
            "                                 %%%:             ",
            "              ,-;--------------;=@%@:             ",
            "              ;++++++++++++++++++@%@:             ",
            "                                .@%@:             ",
            "                                ,%%%:             ",
            "             +###################@@@;             ",
            "             ...................,+++,             ",
            "                                                  ",
            "                                                  ",
            "                                                  ",
        );
        proof {
            assert(r.deep_view() =~= katakana_art(character@));
        }
        return r;
    }
    if str_eq(character, "ラ") {
        let r = lines15(
            "                                                  ",
            "                                                  ",
            "             '::::::::::::::::::::,               ",
            "             ;*********************               ",
            "                                                  ",
            "          ,+++++++++++++++++++++++=+=;,           ",
            "          ';;;;;;;;;;;;;;;;;;;;-;;%@@@:           ",
            "                                 ;%@%:            ",
            "                               ,*@@*,             ",
            "                           .,=#@@+:               ",
            "                     .':-+#@@%+:.                 ",
            "                 .;*%%%%#+-:.                     ",
            "                   .,'.                           ",
            "                                                  ",
            "                                                  ",
        );
        proof {
            assert(r.deep_view() =~= katakana_art(character@));
        }
        return r;
    }
    if str_eq(character, "リ") {
        let r = lines15(
            "                                                  ",
            "                                                  ",
            "                               ::::               ",
            "               *##=            %@@*               ",
            "               %@@=            #%%+               ",
            "               %%%=            #@@+               ",
            "               %%%=            #@@+               ",
            "               %@@=            #%%+               ",
            "               :::'           -%%@:               ",
            "                            '+@@%;                ",
            "                        .,-#@@#-.                 ",
            "                     ,=#@@%*-'                    ",
            "                      ':,.                        ",
            "                                                  ",
            "                                                  ",
        );
        proof {
            assert(r.deep_view() =~= katakana_art(character@));
        }
        return r;
    }
    if str_eq(character, "ル") {
        let r = lines15(
            "                                                  ",
            "                                                  ",
            "                                                  ",
            "               ,:::     .###;                     ",
            "               +@@%     '@@@;                     ",
            "               =%%#     '%%%;                     ",
            "               *@%*     '@%@;                     ",
            "              :%%@:     '@%@;         '-%%-       ",
            "             :%@@=      '%%@;     .,=#@@+;'       ",
            "           '=@@%;       '@%%;.,;+#%@#=:.          ",
            "        .;*@@#-.        '%@@%%%#+-,.              ",
            "        ;+#=,            .,:'.                    ",
            "                                                  ",
            "                                                  ",
            "                                                  ",
        );
        proof {
            assert(r.deep_view() =~= katakana_art(character@));
        }
        return r;
    }
    if str_eq(character, "レ") {
        let r = lines15(
            "                                                  ",
            "                                                  ",
            "                                                  ",
            "               =**=                               ",
            "               #@@*                               ",
            "               *%%+                               ",
            "               *@@+                   '+=:        ",
            "               *@@+                .:*@@#;        ",
            "               *@@+             ,-*@@#-'          ",
            "               *%%+      .':;+#%@%+;'             ",
            "               #@@#-=+*#%%%%#+-:.                 ",
            "               :=***+=-;,'.                       ",
            "                                                  ",
            "                                                  ",
            "                                                  ",
        );
        proof {
            assert(r.deep_view() =~= katakana_art(character@));
        }
        return r;
    }
    if str_eq(character, "ロ") {
        let r = lines15(
            "                                                  ",
            "                                                  ",
            "                                                  ",
            "             ;;;;-----------------;;;'            ",
            "            .@@@#================+@@@-            ",
            "            .%%%-                 %%%;            ",
            "            .%%@-                .%%@;            ",
            "            .%%@-                .%%@;            ",
            "            .%%%-                .%%%;            ",
            "            .%@@%#################@@@-            ",
            "             *##-'''''''''''''''''===,            ",
            "                                                  ",
            "                                                  ",
            "                                                  ",
            "                                                  ",
        );
        proof {
            assert(r.deep_view() =~= katakana_art(character@));
        }
        return r;
    }
    if str_eq(character, "ワ") {
        let r = lines15(
            "                                                  ",
            "                                                  ",
            "                                                  ",
            "           =##########################=           ",
            "           *@@#''''''''''''''''''';@@@=           ",
            "           +%%*                   -%%@,           ",
            "           *@@#                  .%%@*            ",
            "           ''''                 '#@@#.            ",
            "                              '=@@%=.             ",
            "                          .,=#@@#-'               ",
            "                    ':;=*%@@%+;'                  ",
            "                    :+#*=;,.                      ",
            "                                                  ",
            "                                                  ",
            "                                                  ",
        );
        proof {
            assert(r.deep_view() =~= katakana_art(character@));
        }
        return r;
    }
    if str_eq(character, "ヲ") {
        let r = lines15(
            "                                                  ",
            "                                                  ",
            "                                                  ",
            "           -##########################=.          ",
            "           .'.....................:@@@=           ",
            "             '''''''''''''''''''''+%%%.           ",
            "             *#################*#@@@%,            ",
            "                               '+@@*'             ",
            "                            .:*@@*;               ",
            "                        ':=#@@#=,                 ",
            "               .'':;=+#%@@#+;'                    ",
            "               '-#%#*=-:'                         ",
            "                                                  ",
            "                                                  ",
            "                                                  ",
        );
        proof {
            assert(r.deep_view() =~= katakana_art(character@));
        }
        return r;
    }
    if str_eq(character, "ン") {
        let r = lines15(
            "                                                  ",
            "                                                  ",
            "                                                  ",
            "            .-##=:'                               ",
            "            .:-*%@@%+;'                           ",
            "                 ';*#='               ;=;,        ",
            "                                    :#@@#:        ",
            "                                 ,=%@@+:          ",
            "                            .,;*%@@*;'            ",
            "                    .',:-=*%@@%*=:.               ",
            "           .+*###%%%%%%%#*=;:'                    ",
            "            ,+;::,,''.                            ",
            "                                                  ",
            "                                                  ",
            "                                                  ",
        );
        proof {
            assert(r.deep_view() =~= katakana_art(character@));
        }
        return r;
    }
    let r = fallback_box(character);
    proof {
        assert(r.deep_view() == katakana_art(character@));
    }
    r
}

} // verus!
