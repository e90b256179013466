//! The distro art banners, one per known distribution, each carrying its
//! own color codes.

use vstd::prelude::*;

use crate::os::Distro;

verus! {

/// The art banner of each distribution; the unknown one has none.
pub open spec fn icon_seq(d: Distro) -> Seq<char> {
    match d {
        Distro::Aix => "\u{1b}[32m           `:+ssssossossss+-`\n        .oys///oyhddddhyo///sy+.\n      /yo:+hNNNNNNNNNNNNNNNNh+:oy/\n    :h/:yNNNNNNNNNNNNNNNNNNNNNNy-+h:\n  `ys.yNNNNNNNNNNNNNNNNNNNNNNNNNNy.ys\n `h+-mNNNNNNNNNNNNNNNNNNNNNNNNNNNNm-oh\n h+-NNNNNNNNNNNNNNNNNNNNNNNNNNNNNNNN.oy\n/d`mNNNNNNN/::mNNNd::m+:/dNNNo::dNNNd`m:\nh//NNNNNNN: . .NNNh  mNo  od. -dNNNNN:+y\nN.sNNNNNN+ -N/ -NNh  mNNd.   sNNNNNNNo-m\nN.sNNNNNs  +oo  /Nh  mNNs` ` /mNNNNNNo-m\nh//NNNNh  ossss` +h  md- .hm/ `sNNNNN:+y\n:d`mNNN+/yNNNNNd//y//h//oNNNNy//sNNNd`m-\n yo-NNNNNNNNNNNNNNNNNNNNNNNNNNNNNNNm.ss\n `h+-mNNNNNNNNNNNNNNNNNNNNNNNNNNNNm-oy\n   sy.yNNNNNNNNNNNNNNNNNNNNNNNNNNs.yo\n    :h+-yNNNNNNNNNNNNNNNNNNNNNNs-oh-\n      :ys:/yNNNNNNNNNNNNNNNmy/:sy:\n        .+ys///osyhhhhys+///sy+.\n            -/osssossossso/-"@,
        Distro::AlmaLinux => "\u{1b}[31m         'c:.\n\u{1b}[31m        lkkkx, ..       \u{1b}[33m..   ,cc,\n\u{1b}[31m        okkkk:ckkx'  \u{1b}[33m.lxkkx.okkkkd\n\u{1b}[31m        .:llcokkx'  \u{1b}[33m:kkkxkko:xkkd,\n\u{1b}[31m      .xkkkkdood:  \u{1b}[33m;kx,  .lkxlll;\n\u{1b}[31m       xkkx.       \u{1b}[33mxk'     xkkkkk:\n\u{1b}[31m       'xkx.       \u{1b}[33mxd      .....,.\n\u{1b}[34m      .. \u{1b}[31m:xkl'     \u{1b}[33m:c      ..''..\n\u{1b}[34m    .dkx'  \u{1b}[31m.:ldl:'. \u{1b}[33m'  \u{1b}[32m':lollldkkxo;\n\u{1b}[34m  .''lkkko'                     \u{1b}[32mckkkx.\n\u{1b}[34m'xkkkd:kkd.       ..  \u{1b}[36m;'        \u{1b}[32m:kkxo.\n\u{1b}[34m,xkkkd;kk'      ,d;    \u{1b}[36mld.   \u{1b}[32m':dkd::cc,\n\u{1b}[34m .,,.;xkko'.';lxo.      \u{1b}[36mdx,  \u{1b}[32m:kkk'xkkkkc\n\u{1b}[34m     'dkkkkkxo:.        \u{1b}[36m;kx  \u{1b}[32m.kkk:;xkkd.\n\u{1b}[34m       .....   \u{1b}[36m.;dk:.   \u{1b}[36mlkk.  \u{1b}[32m:;,\n             \u{1b}[36m:kkkkkkkdoxkkx\n              ,c,,;;;:xkkd.\n                ;kkkkl...\n                ;kkkkl\n                 ,od;"@,
        Distro::AlpineSmall => "\u{1b}[34m   /\\\\ /\\\\\n  /\u{1b}[37m/ \u{1b}[34m\\\\  \\\\\n /\u{1b}[37m/   \u{1b}[34m\\\\  \\\\\n/\u{1b}[37m//    \u{1b}[34m\\\\  \\\\\n\u{1b}[37m//      \u{1b}[34m\\\\  \\\\\n         \\\\"@,
        Distro::Alpine => "\u{1b}[34m       .hddddddddddddddddddddddh.\n      :dddddddddddddddddddddddddd:\n     /dddddddddddddddddddddddddddd/\n    +dddddddddddddddddddddddddddddd+\n  `sdddddddddddddddddddddddddddddddds`\n `ydddddddddddd++hdddddddddddddddddddy`\n.hddddddddddd+`  `+ddddh:-sdddddddddddh.\nhdddddddddd+`      `+y:    .sddddddddddh\nddddddddh+`   `//`   `.`     -sddddddddd\nddddddh+`   `/hddh/`   `:s-    -sddddddd\nddddh+`   `/+/dddddh/`   `+s-    -sddddd\nddd+`   `/o` :dddddddh/`   `oy-    .yddd\nhdddyo+ohddyosdddddddddho+oydddy++ohdddh\n.hddddddddddddddddddddddddddddddddddddh.\n `yddddddddddddddddddddddddddddddddddy`\n  `sdddddddddddddddddddddddddddddddds`\n    +dddddddddddddddddddddddddddddd+\n     /dddddddddddddddddddddddddddd/\n      :dddddddddddddddddddddddddd:\n       .hddddddddddddddddddddddh."@,
        Distro::Alter => "\u{1b}[36m                      %,\n                    ^WWWw\n                   'wwwwww\n                  !wwwwwwww\n                 #`wwwwwwwww\n                @wwwwwwwwwwww\n               wwwwwwwwwwwwwww\n              wwwwwwwwwwwwwwwww\n             wwwwwwwwwwwwwwwwwww\n            wwwwwwwwwwwwwwwwwwww,\n           w~1i.wwwwwwwwwwwwwwwww,\n         3~:~1lli.wwwwwwwwwwwwwwww.\n        :~~:~?ttttzwwwwwwwwwwwwwwww\n       #<~:~~~~?llllltO-.wwwwwwwwwww\n      #~:~~:~:~~?ltlltlttO-.wwwwwwwww\n     @~:~~:~:~:~~(zttlltltlOda.wwwwwww\n    @~:~~: ~:~~:~:(zltlltlO    a,wwwwww\n   8~~:~~:~~~~:~~~~_1ltltu          ,www\n  5~~:~~:~~:~~:~~:~~~_1ltq             N,,\n g~:~~:~~~:~~:~~:~:~~~~1q                N,"@,
        Distro::Amazon => "\u{1b}[33m             `-/oydNNdyo:.`\n      `.:+shmMMMMMMMMMMMMMMmhs+:.`\n    -+hNNMMMMMMMMMMMMMMMMMMMMMMNNho-\n.``      -/+shmNNMMMMMMNNmhs+/-      ``.\ndNmhs+:.       `.:/oo/:.`       .:+shmNd\ndMMMMMMMNdhs+:..        ..:+shdNMMMMMMMd\ndMMMMMMMMMMMMMMNds    odNMMMMMMMMMMMMMMd\ndMMMMMMMMMMMMMMMMh    yMMMMMMMMMMMMMMMMd\ndMMMMMMMMMMMMMMMMh    yMMMMMMMMMMMMMMMMd\ndMMMMMMMMMMMMMMMMh    yMMMMMMMMMMMMMMMMd\ndMMMMMMMMMMMMMMMMh    yMMMMMMMMMMMMMMMMd\ndMMMMMMMMMMMMMMMMh    yMMMMMMMMMMMMMMMMd\ndMMMMMMMMMMMMMMMMh    yMMMMMMMMMMMMMMMMd\ndMMMMMMMMMMMMMMMMh    yMMMMMMMMMMMMMMMMd\ndMMMMMMMMMMMMMMMMh    yMMMMMMMMMMMMMMMMd\ndMMMMMMMMMMMMMMMMh    yMMMMMMMMMMMMMMMMd\n.:+ydNMMMMMMMMMMMh    yMMMMMMMMMMMNdy+:.\n     `.:+shNMMMMMh    yMMMMMNhs+:``\n            `-+shy    shs+:`"@,
        Distro::Anarchy => "\u{1b}[34m..\u{1b}[37m\n                        \u{1b}[34m..\u{1b}[37m\n                      \u{1b}[34m:..\u{1b}[37m\n                    \u{1b}[34m:+++.\u{1b}[37m\n              .:::++\u{1b}[34m++++\u{1b}[37m+::.\n          .:+######\u{1b}[34m++++\u{1b}[37m######+:.\n       .+#########\u{1b}[34m+++++\u{1b}[37m##########:.\n     .+##########\u{1b}[34m+++++++\u{1b}[37m##\u{1b}[34m+\u{1b}[37m#########+.\n    +###########\u{1b}[34m+++++++++\u{1b}[37m############:\n   +##########\u{1b}[34m++++++\u{1b}[37m#\u{1b}[34m++++\u{1b}[37m#\u{1b}[34m+\u{1b}[37m###########+\n  +###########\u{1b}[34m+++++\u{1b}[37m###\u{1b}[34m++++\u{1b}[37m#\u{1b}[34m+\u{1b}[37m###########+\n :##########\u{1b}[34m+\u{1b}[37m#\u{1b}[34m++++\u{1b}[37m####\u{1b}[34m++++\u{1b}[37m#\u{1b}[34m+\u{1b}[37m############:\n ###########\u{1b}[34m+++++\u{1b}[37m#####\u{1b}[34m+++++\u{1b}[37m#\u{1b}[34m+\u{1b}[37m###\u{1b}[34m++\u{1b}[37m######+\n.##########\u{1b}[34m++++++\u{1b}[37m#####\u{1b}[34m++++++++++++\u{1b}[37m#######.\n.##########\u{1b}[34m+++++++++++++++++++\u{1b}[37m###########.\n #####\u{1b}[34m++++++++++++++\u{1b}[37m###\u{1b}[34m++++++++\u{1b}[37m#########+\n :###\u{1b}[34m++++++++++\u{1b}[37m#########\u{1b}[34m+++++++\u{1b}[37m#########:\n  +######\u{1b}[34m+++++\u{1b}[37m##########\u{1b}[34m++++++++\u{1b}[37m#######+\n   +####\u{1b}[34m+++++\u{1b}[37m###########\u{1b}[34m+++++++++\u{1b}[37m#####+\n    :##\u{1b}[34m++++++\u{1b}[37m############\u{1b}[34m++++++++++\u{1b}[37m##:\n     .\u{1b}[34m++++++\u{1b}[37m#############\u{1b}[34m++++++++++\u{1b}[37m+.\n      :\u{1b}[34m++++\u{1b}[37m###############\u{1b}[34m+++++++\u{1b}[37m::\n     .\u{1b}[34m++. .:+\u{1b}[37m##############\u{1b}[34m+++++++\u{1b}[37m..\n     \u{1b}[34m.:.\u{1b}[37m      ..::++++++::..:\u{1b}[34m++++\u{1b}[37m+.\n     \u{1b}[34m.\u{1b}[37m                       \u{1b}[34m.:+++\u{1b}[37m.\n                                \u{1b}[34m.:\u{1b}[37m:\n                                   \u{1b}[34m..\u{1b}[37m\n                                    \u{1b}[34m..\u{1b}[37m"@,
        Distro::AndroidSmall => "\u{1b}[32m  ;,           ,;\n   ';,.-----.,;'\n  ,'           ',\n /    O     O    \\\\\n|                 |\n'-----------------'"@,
        Distro::Android => "\u{1b}[32m         -o          o-\n          +hydNNNNdyh+\n        +mMMMMMMMMMMMMm+\n      `dMM\u{1b}[37mm:\u{1b}[32mNMMMMMMN\u{1b}[37m:m\u{1b}[32mMMd`\n      hMMMMMMMMMMMMMMMMMMh\n  ..  yyyyyyyyyyyyyyyyyyyy  ..\n.mMMm`MMMMMMMMMMMMMMMMMMMM`mMMm.\n:MMMM-MMMMMMMMMMMMMMMMMMMM-MMMM:\n:MMMM-MMMMMMMMMMMMMMMMMMMM-MMMM:\n:MMMM-MMMMMMMMMMMMMMMMMMMM-MMMM:\n:MMMM-MMMMMMMMMMMMMMMMMMMM-MMMM:\n-MMMM-MMMMMMMMMMMMMMMMMMMM-MMMM-\n +yy+ MMMMMMMMMMMMMMMMMMMM +yy+\n      mMMMMMMMMMMMMMMMMMMm\n      `/++MMMMh++hMMMM++/`\n          MMMMo  oMMMM\n          MMMMo  oMMMM\n          oNMm-  -mMNs"@,
        Distro::InstantOs => "\u{1b}[34m\n     'cx0XWWMMWNKOd:'.\n  .;kNMMMMMMMMMMMMMWNKd'\n 'kNMMMMMMWNNNWMMMMMMMMXo.\n,0MMMMMW0o;'..,:dKWMMMMMWx.\nOMMMMMXl.        .xNMMMMMNo\nWMMMMNl           .kWWMMMMO'\nMMMMMX;            oNWMMMMK,\nNMMMMWo           .OWMMMMMK,\nkWMMMMNd.        ,kWMMMMMMK,\n'kWMMMMWXxl:;;:okNMMMMMMMMK,\n .oXMMMMMMMWWWMMMMMMMMMMMMK,\n   'oKWMMMMMMMMMMMMMMMMMMMK,\n     .;lxOKXXXXXXXXXXXXXXXO;......\n          ................,d0000000kd:.\n                          .kMMMMMMMMMW0;\n                          .kMMMMMMMMMMMX\n                          .xMMMMMMMMMMMW\n                           cXMMMMMMMMMM0\n                            :0WMMMMMMNx,\n                             .o0NMWNOc."@,
        Distro::Antergos => "\u{1b}[36m              `.-/::/-``\n            .-/osssssssso/.\n           :osyysssssssyyys+-\n        `.+yyyysssssssssyyyyy+.\n       `/syyyyyssssssssssyyyyys-`\n      `/yhyyyyysss\u{1b}[34m++\u{1b}[36mssosyyyyhhy/`\n     .ohhhyyyys\u{1b}[34mo++/+o\u{1b}[36mso\u{1b}[34m+\u{1b}[36msyy\u{1b}[34m+\u{1b}[36mshhhho.\n    .shhhhys\u{1b}[34moo++//+\u{1b}[36msss\u{1b}[34m+++\u{1b}[36myyy\u{1b}[34m+s\u{1b}[36mhhhhs.\n   -yhhhhs\u{1b}[34m+++++++o\u{1b}[36mssso\u{1b}[34m+++\u{1b}[36myyy\u{1b}[34ms+o\u{1b}[36mhhddy:\n  -yddhhy\u{1b}[34mo+++++o\u{1b}[36msyyss\u{1b}[34m++++\u{1b}[36myyy\u{1b}[34myooy\u{1b}[36mhdddy-\n .yddddhs\u{1b}[34mo++o\u{1b}[36msyyyyys\u{1b}[34m+++++\u{1b}[36myyhh\u{1b}[34msos\u{1b}[36mhddddy`\n`odddddhyosyhyyyyyy\u{1b}[34m++++++\u{1b}[36myhhhyosddddddo\n.dmdddddhhhhhhhyyyo\u{1b}[34m+++++\u{1b}[36mshhhhhohddddmmh.\nddmmdddddhhhhhhhso\u{1b}[34m++++++\u{1b}[36myhhhhhhdddddmmdy\ndmmmdddddddhhhyso\u{1b}[34m++++++\u{1b}[36mshhhhhddddddmmmmh\n-dmmmdddddddhhys\u{1b}[34mo++++o\u{1b}[36mshhhhdddddddmmmmd-\n.smmmmddddddddhhhhhhhhhdddddddddmmmms.\n   `+ydmmmdddddddddddddddddddmmmmdy/.\n      `.:+ooyyddddddddddddyyso+:.`"@,
        Distro::AntiX => "\u{1b}[31m\n                    \\\n         , - ~ ^ ~ - \\        /\n     , '              \\ ' ,  /\n   ,                   \\   '/\n  ,                     \\  / ,\n ,___,                   \\/   ,\n /   |   _  _  _|_ o     /\\   ,\n|,   |  / |/ |  |  |    /  \\  ,\n \\,_/\\_/  |  |_/|_/|_/_/    \\,\n   ,                  /     ,\\\n     ,               /  , '   \\\n      ' - , _ _ _ ,  '"@,
        Distro::AoscOs => "\u{1b}[37m             .:+syhhhhys+:.\n         .ohNMMMMMMMMMMMMMMNho.\n      `+mMMMMMMMMMMmdmNMMMMMMMMm+`\n     +NMMMMMMMMMMMM/   `./smMMMMMN+\n   .mMMMMMMMMMMMMMMo        -yMMMMMm.\n  :NMMMMMMMMMMMMMMMs          .hMMMMN:\n .NMMMMhmMMMMMMMMMMm+/-         oMMMMN.\n dMMMMs  ./ymMMMMMMMMMMNy.       sMMMMd\n-MMMMN`      oMMMMMMMMMMMN:      `NMMMM-\n/MMMMh       NMMMMMMMMMMMMm       hMMMM/\n/MMMMh       NMMMMMMMMMMMMm       hMMMM/\n-MMMMN`      :MMMMMMMMMMMMy.     `NMMMM-\n dMMMMs       .yNMMMMMMMMMMMNy/. sMMMMd\n .NMMMMo         -/+sMMMMMMMMMMMmMMMMN.\n  :NMMMMh.          .MMMMMMMMMMMMMMMN:\n   .mMMMMMy-         NMMMMMMMMMMMMMm.\n     +NMMMMMms/.`    mMMMMMMMMMMMN+\n      `+mMMMMMMMMNmddMMMMMMMMMMm+`\n         .ohNMMMMMMMMMMMMMMNho.\n             .:+syhhhhys+:."@,
        Distro::Apricity => "\u{1b}[37m                                    ./o-\n          ``...``              `:. -/:\n     `-+ymNMMMMMNmho-`      :sdNNm/\n   `+dMMMMMMMMMMMMMMMmo` sh:.:::-\n  /mMMMMMMMMMMMMMMMMMMMm/`sNd/\n oMMMMMMMMMMMMMMMMMMMMMMMs -`\n:MMMMMMMMMMMMMMMMMMMMMMMMM/\nNMMMMMMMMMMMMMMMMMMMMMMMMMd\nMMMMMMMmdmMMMMMMMMMMMMMMMMd\nMMMMMMy` .mMMMMMMMMMMMmho:`\nMMMMMMNo/sMMMMMMMNdy+-.`-/\nMMMMMMMMMMMMNdy+:.`.:ohmm:\nMMMMMMMmhs+-.`.:+ymNMMMy.\nMMMMMM/`.-/ohmNMMMMMMy-\nMMMMMMNmNNMMMMMMMMmo.\nMMMMMMMMMMMMMMMms:`\nMMMMMMMMMMNds/.\ndhhyys+/-`"@,
        Distro::Archcraft => "\u{1b}[36m                   -m:\n                  :NMM+      .+\n                 +MMMMMo    -NMy\n                sMMMMMMMy  -MMMMh`\n               yMMMMMMMMMd` oMMMMd`\n             `dMMMMMMMMMMMm. /MMMMm-\n            .mMMMMMm-dMMMMMN- :NMMMN:\n           -NMMMMMd`  yMMMMMN: .mMMMM/\n          :NMMMMMy     sMMMMMM+ `dMMMMo\n         +MMMMMMs       +MMMMMMs `hMMMMy\n        oMMMMMMMds-      :NMMMMMy  sMMMMh`\n       yMMMMMNoydMMmo`    -NMMMMMd` +MMMMd.\n     `dMMMMMN-   `:yNNs`   .mMMMMMm. /MMMMm-\n    .mMMMMMm.        :hN/   `dMMMMMN- -NMMMN:\n   -NMMMMMd`           -hh`  `yMMMMMN: .mMMMM/\n  :NMMMMMy         `s`   :h.   oMMMMMM+ `-----\n +MMMMMMo         .dMm.   `o.   +MMMMMMo\nsMMMMMM+         .mMMMN:    :`   :NMMMMMy"@,
        Distro::ArcolinuxSmall => "\u{1b}[34m          A\n         ooo\n        ooooo\n       ooooooo\n      ooooooooo\n     ooooo ooooo\n    ooooo   ooooo\n   ooooo     ooooo\n  ooooo  \u{1b}[37m<oooooooo>\u{1b}[34m\n ooooo      \u{1b}[37m<oooooo>\u{1b}[34m\nooooo          \u{1b}[37m<oooo>\u{1b}[34m"@,
        Distro::ArcoLinux => "\u{1b}[34m                    /-\n                   ooo:\n                  yoooo/\n                 yooooooo\n                yooooooooo\n               yooooooooooo\n             .yooooooooooooo\n            .oooooooooooooooo\n           .oooooooarcoooooooo\n          .ooooooooo-oooooooooo\n         .ooooooooo-  oooooooooo\n        :ooooooooo.    :ooooooooo\n       :ooooooooo.      :ooooooooo\n      :oooarcooo         .oooarcooo\n     :ooooooooy           .ooooooooo\n    :ooooooooo   \u{1b}[37m/ooooooooooooooooooo\u{1b}[34m\n   :ooooooooo      \u{1b}[37m.-ooooooooooooooooo.\u{1b}[34m\n  ooooooooo-             \u{1b}[37m-ooooooooooooo.\u{1b}[34m\n ooooooooo-                 \u{1b}[37m.-oooooooooo.\u{1b}[34m\nooooooooo.                     \u{1b}[37m-ooooooooo\u{1b}[34m"@,
        Distro::ArchSmall => "\u{1b}[36m      /\\\\\n     /  \\\\\n    /\\\\   \\\\\n\u{1b}[37m   /      \\\\\n  /   ,,   \\\\\n /   |  |  -\\\\\n/_-''    ''-_\\\\"@,
        Distro::ArchOld => "\u{1b}[36m             __\n         _=(SDGJT=_\n       _GTDJHGGFCVS)\n      ,GTDJGGDTDFBGX0\n\u{1b}[36m     JDJDIJHRORVFSBSVL\u{1b}[37m-=+=,_\n\u{1b}[36m    IJFDUFHJNXIXCDXDSV,\u{1b}[37m  \"DEBL\n\u{1b}[36m   [LKDSDJTDU=OUSCSBFLD.\u{1b}[37m   '?ZWX,\n\u{1b}[36m  ,LMDSDSWH'     `DCBOSI\u{1b}[37m     DRDS],\n\u{1b}[36m  SDDFDFH'         !YEWD,\u{1b}[37m   )HDROD\n\u{1b}[36m !KMDOCG            &GSU|\u{1b}[37m\\_GFHRGO\\'\n\u{1b}[36m HKLSGP'\u{1b}[37m           __\u{1b}[36m\\TKM0\u{1b}[37m\\GHRBV)'\n\u{1b}[36mJSNRVW'\u{1b}[37m       __+MNAEC\u{1b}[36m\\IOI,\u{1b}[37m\\BN'\n\u{1b}[36mHELK['\u{1b}[37m    __,=OFFXCBGHC\u{1b}[36m\\FD)\n\u{1b}[36m?KGHE \u{1b}[37m\\_-#DASDFLSV='\u{1b}[36m    'EF\n'EHTI                    !H\n `0F'                    '!"@,
        Distro::ArchBox => "\u{1b}[32m              ...:+oh/:::..\n         ..-/oshhhhhh`   `::::-.\n     .:/ohhhhhhhhhhhh`        `-::::.\n .+shhhhhhhhhhhhhhhhh`             `.::-.\n /`-:+shhhhhhhhhhhhhh`            .-/+shh\n /      .:/ohhhhhhhhh`       .:/ohhhhhhhh\n /           `-:+shhh`  ..:+shhhhhhhhhhhh\n /                 .:ohhhhhhhhhhhhhhhhhhh\n /                  `hhhhhhhhhhhhhhhhhhhh\n /                  `hhhhhhhhhhhhhhhhhhhh\n /                  `hhhhhhhhhhhhhhhhhhhh\n /                  `hhhhhhhhhhhhhhhhhhhh\n /      .+o+        `hhhhhhhhhhhhhhhhhhhh\n /     -hhhhh       `hhhhhhhhhhhhhhhhhhhh\n /     ohhhhho      `hhhhhhhhhhhhhhhhhhhh\n /:::+`hhhhoos`     `hhhhhhhhhhhhhhhhhs+`\n    `--/:`   /:     `hhhhhhhhhhhho/-\n             -/:.   `hhhhhhs+:-`\n                ::::/ho/-`"@,
        Distro::ArcHlabs => "\u{1b}[36m                     'c'\n                    'kKk,\n                   .dKKKx.\n                  .oKXKXKd.\n                 .l0XXXXKKo.\n                 c0KXXXXKX0l.\n                :0XKKOxxOKX0l.\n               :OXKOc. .c0XX0l.\n              :OK0o. \u{1b}[31m...\u{1b}[36m'dKKX0l.\n             :OX0c  \u{1b}[31m;xOx'\u{1b}[36m'dKXX0l.\n            :0KKo.\u{1b}[31m.o0XXKd'.\u{1b}[36mlKXX0l.\n           c0XKd.\u{1b}[31m.oKXXXXKd..\u{1b}[36moKKX0l.\n         .c0XKk;\u{1b}[31m.l0K0OO0XKd..\u{1b}[36moKXXKo.\n        .l0XXXk:\u{1b}[31m,dKx,.'l0XKo.\u{1b}[36m.kXXXKo.\n       .o0XXXX0d,\u{1b}[31m:x;   .oKKx'\u{1b}[36m.dXKXXKd.\n      .oKXXXXKK0c.\u{1b}[31m;.    :00c'\u{1b}[36mcOXXXXXKd.\n     .dKXXXXXXXXk,\u{1b}[31m.     cKx'\u{1b}[36m'xKXXXXXXKx'\n    'xKXXXXK0kdl:.     \u{1b}[31m.ok; \u{1b}[36m.cdk0KKXXXKx'\n   'xKK0koc,..         \u{1b}[31m'c, \u{1b}[36m    ..,cok0KKk,\n  ,xko:'.             \u{1b}[31m.. \u{1b}[36m           .':okx;\n .,'.                                   .',."@,
        Distro::ArchStrike => "\u{1b}[90m                   *   \n                  **.\n                 ****\n                ******\n                *******\n              ** *******\n             **** *******\n            \u{1b}[90m****\u{1b}[36m_____\u{1b}[90m***\u{1b}[36m/\u{1b}[90m*\n           ***\u{1b}[36m/\u{1b}[90m*******\u{1b}[36m//\u{1b}[90m***\n          **\u{1b}[36m/\u{1b}[90m********\u{1b}[36m///\u{1b}[90m*\u{1b}[36m/\u{1b}[90m**\n         **\u{1b}[36m/\u{1b}[90m*******\u{1b}[36m////\u{1b}[90m***\u{1b}[36m/\u{1b}[90m**\n        **\u{1b}[36m/\u{1b}[90m****\u{1b}[36m//////.,\u{1b}[90m****\u{1b}[36m/\u{1b}[90m**\n       ***\u{1b}[36m/\u{1b}[90m*****\u{1b}[36m/////////\u{1b}[90m**\u{1b}[36m/\u{1b}[90m***\n      ****\u{1b}[36m/\u{1b}[90m****    \u{1b}[36m/////\u{1b}[90m***\u{1b}[36m/\u{1b}[90m****\n     ******\u{1b}[36m/\u{1b}[90m***  \u{1b}[36m////   \u{1b}[90m**\u{1b}[36m/\u{1b}[90m******\n    ********\u{1b}[36m/\u{1b}[90m* \u{1b}[36m///      \u{1b}[90m*\u{1b}[36m/\u{1b}[90m********\n  ,******     \u{1b}[36m// ______ /    \u{1b}[90m******,"@,
        Distro::XFerience => "\u{1b}[36m           ``--:::::::-.`\n        .-/+++ooooooooo+++:-`\n     `-/+oooooooooooooooooo++:.\n    -/+oooooo/+ooooooooo+/ooo++:`\n  `/+oo++oo.   .+oooooo+.-: +:-o+-\n `/+o/.  -o.    :oooooo+ ```:.+oo+-\n`:+oo-    -/`   :oooooo+ .`-`+oooo/.\n.+ooo+.    .`   `://///+-+..oooooo+:`\n-+ooo:`                ``.-+oooooo+/`\n-+oo/`                       :+oooo/.\n.+oo:            ..-/. .      -+oo+/`\n`/++-         -:::++::/.      -+oo+-\n ./o:          `:///+-     `./ooo+:`\n  .++-         `` /-`   -:/+oooo+:`\n   .:+/:``          `-:ooooooo++-\n     ./+o+//:...../+oooooooo++:`\n       `:/++ooooooooooooo++/-`\n          `.-//++++++//:-.`\n               ``````"@,
        Distro::ArchMerge => "\u{1b}[36m                    y:\n                  sMN-\n                 +MMMm`\n                /MMMMMd`\n               :NMMMMMMy\n              -NMMMMMMMMs\n             .NMMMMMMMMMM+\n            .mMMMMMMMMMMMM+\n            oNMMMMMMMMMMMMM+\n          `+:-+NMMMMMMMMMMMM+\n          .sNMNhNMMMMMMMMMMMM/\n        `hho/sNMMMMMMMMMMMMMMM/\n       `.`omMMmMMMMMMMMMMMMMMMM+\n      .mMNdshMMMMd+::oNMMMMMMMMMo\n     .mMMMMMMMMM+     `yMMMMMMMMMs\n    .NMMMMMMMMM/        yMMMMMMMMMy\n   -NMMMMMMMMMh         `mNMMMMMMMMd`\n  /NMMMNds+:.`             `-/oymMMMm.\n +Mmy/.                          `:smN:\n/+.                                  -o."@,
        Distro::Arch => "\u{1b}[36m                   -`\n                  .o+`\n                 `ooo/\n                `+oooo:\n               `+oooooo:\n               -+oooooo+:\n             `/:-:++oooo+:\n            `/++++/+++++++:\n           `/++++++++++++++:\n          `/+++o\u{1b}[36moooooooo\u{1b}[36moooo/`\n\u{1b}[36m         \u{1b}[36m./\u{1b}[36mooosssso++osssssso\u{1b}[36m+`\n\u{1b}[36m        .oossssso-````/ossssss+`\n       -osssssso.      :ssssssso.\n      :osssssss/        osssso+++.\n     /ossssssss/        +ssssooo/-\n   `/ossssso+/:-        -:/+osssso+-\n  `+sso+:-`                 `.-/+oso:\n `++:.                           `-/+/\n .`                                 `/"@,
        Distro::ArtixSmall => "\u{1b}[36m      /\\\\\n     /  \\\\\n    /`'.,\\\\\n   /     ',\n  /      ,`\\\\\n /   ,.'`.  \\\\\n/.,'`     `'.\\\\"@,
        Distro::Artix => "\u{1b}[36m                   '\n                  'o'\n                 'ooo'\n                'ooxoo'\n               'ooxxxoo'\n              'oookkxxoo'\n             'oiioxkkxxoo'\n            ':;:iiiioxxxoo'\n               `'.;::ioxxoo'\n          '-.      `':;jiooo'\n         'oooio-..     `'i:io'\n        'ooooxxxxoio:,.   `'-;'\n       'ooooxxxxxkkxoooIi:-.  `'\n      'ooooxxxxxkkkkxoiiiiiji'\n     'ooooxxxxxkxxoiiii:'`     .i'\n    'ooooxxxxxoi:::'`       .;ioxo'\n   'ooooxooi::'`         .:iiixkxxo'\n  'ooooi:'`                `'';ioxxo'\n 'i:'`                          '':io'\n'`                                   `'"@,
        Distro::Arya => "\u{1b}[32m                `oyyy/\u{1b}[31m-yyyyyy+\n\u{1b}[32m               -syyyy/\u{1b}[31m-yyyyyy+\n\u{1b}[32m              .syyyyy/\u{1b}[31m-yyyyyy+\n\u{1b}[32m              :yyyyyy/\u{1b}[31m-yyyyyy+\n\u{1b}[32m           `/ :yyyyyy/\u{1b}[31m-yyyyyy+\n\u{1b}[32m          .+s :yyyyyy/\u{1b}[31m-yyyyyy+\n\u{1b}[32m         .oys :yyyyyy/\u{1b}[31m-yyyyyy+\n\u{1b}[32m        -oyys :yyyyyy/\u{1b}[31m-yyyyyy+\n\u{1b}[32m       :syyys :yyyyyy/\u{1b}[31m-yyyyyy+\n\u{1b}[32m      /syyyys :yyyyyy/\u{1b}[31m-yyyyyy+\n\u{1b}[32m     +yyyyyys :yyyyyy/\u{1b}[31m-yyyyyy+\n\u{1b}[32m   .oyyyyyyo. :yyyyyy/\u{1b}[31m-yyyyyy+ ---------\n\u{1b}[32m  .syyyyyy+`  :yyyyyy/\u{1b}[31m-yyyyy+-+syyyyyyyy\n\u{1b}[32m -syyyyyy/    :yyyyyy/\u{1b}[31m-yyys:.syyyyyyyyyy\n\u{1b}[32m:syyyyyy/     :yyyyyy/\u{1b}[31m-yyo.:syyyyyyyyyyy"@,
        Distro::Bedrock => "\u{1b}[90m--------------------------------------\n--------------------------------------\n--------------------------------------\n---\u{1b}[37m\\\\\\\\\\\\\\\\\\\\\\\\\\\\\\\\\\\\\\\\\\\\\\\\\u{1b}[90m-----------------------\n----\u{1b}[37m\\\\\\\\\\\\      \\\\\\\\\\\\\u{1b}[90m----------------------\n-----\u{1b}[37m\\\\\\\\\\\\      \\\\\\\\\\\\\u{1b}[90m---------------------\n------\u{1b}[37m\\\\\\\\\\\\      \\\\\\\\\\\\\\\\\\\\\\\\\\\\\\\\\\\\\\\\\\\\\\\\\\\\\\\\\\\\\\\\\\\\\u{1b}[90m------\n-------\u{1b}[37m\\\\\\\\\\\\                    \\\\\\\\\\\\\u{1b}[90m-----\n--------\u{1b}[37m\\\\\\\\\\\\                    \\\\\\\\\\\\\u{1b}[90m----\n---------\u{1b}[37m\\\\\\\\\\\\        ______      \\\\\\\\\\\\\u{1b}[90m---\n----------\u{1b}[37m\\\\\\\\\\\\                   ///\u{1b}[90m---\n-----------\u{1b}[37m\\\\\\\\\\\\                 ///\u{1b}[90m----\n------------\u{1b}[37m\\\\\\\\\\\\               ///\u{1b}[90m-----\n-------------\u{1b}[37m\\\\\\\\\\\\////////////////\u{1b}[90m------\n--------------------------------------\n--------------------------------------\n--------------------------------------"@,
        Distro::Bitrig => "\u{1b}[32m   `hMMMMN+\n   -MMo-dMd`\n   oMN- oMN`\n   yMd  /NM:\n  .mMmyyhMMs\n  :NMMMhsmMh\n  +MNhNNoyMm-\n  hMd.-hMNMN:\n  mMmsssmMMMo\n .MMdyyhNMMMd\n oMN.`/dMddMN`\n yMm/hNm+./MM/\n.dMMMmo.``.NMo\n:NMMMNmmmmmMMh\n/MN/-------oNN:\nhMd.       .dMh\nsm/         /ms"@,
        Distro::BlackArch => "\u{1b}[30m                   00\n                   11\n                  ====\u{1b}[31m\n                  .\u{1b}[30m//\u{1b}[31m\n                 `o\u{1b}[30m//\u{1b}[31m:\n                `+o\u{1b}[30m//\u{1b}[31mo:\n               `+oo\u{1b}[30m//\u{1b}[31moo:\n               -+oo\u{1b}[30m//\u{1b}[31moo+:\n             `/:-:+\u{1b}[30m//\u{1b}[31mooo+:\n            `/+++++\u{1b}[30m//\u{1b}[31m+++++:\n           `/++++++\u{1b}[30m//\u{1b}[31m++++++:\n          `/+++o\u{1b}[31mooo\u{1b}[30m//\u{1b}[31mooo\u{1b}[31moooo/`\n\u{1b}[31m         \u{1b}[31m./\u{1b}[31mooosssso\u{1b}[30m//\u{1b}[31mosssssso\u{1b}[31m+`\n\u{1b}[31m        .oossssso-`\u{1b}[30m//\u{1b}[31m`/ossssss+`\n       -osssssso.  \u{1b}[30m//\u{1b}[31m  :ssssssso.\n      :osssssss/   \u{1b}[30m//\u{1b}[31m   osssso+++.\n     /ossssssss/   \u{1b}[30m//\u{1b}[31m   +ssssooo/-\n   `/ossssso+/:-   \u{1b}[30m//\u{1b}[31m   -:/+osssso+-\n  `+sso+:-`        \u{1b}[30m//\u{1b}[31m       `.-/+oso:\n `++:.             \u{1b}[30m//\u{1b}[31m            `-/+/\n .`                \u{1b}[30m/\u{1b}[31m                `/"@,
        Distro::Blag => "\u{1b}[35m             d\n            ,MK:\n            xMMMX:\n           .NMMMMMX;\n           lMMMMMMMM0clodkO0KXWW:\n           KMMMMMMMMMMMMMMMMMMX'\n      .;d0NMMMMMMMMMMMMMMMMMMK.\n .;dONMMMMMMMMMMMMMMMMMMMMMMx\n'dKMMMMMMMMMMMMMMMMMMMMMMMMl\n   .:xKWMMMMMMMMMMMMMMMMMMM0.\n       .:xNMMMMMMMMMMMMMMMMMK.\n          lMMMMMMMMMMMMMMMMMMK.\n          ,MMMMMMMMWkOXWMMMMMM0\n          .NMMMMMNd.     `':ldko\n           OMMMK:\n           oWk,\n           ;:"@,
        Distro::BlankOn => "\u{1b}[37m        `./ohdNMMMMNmho+.` \u{1b}[31m       .+oo:`\n\u{1b}[37m      -smMMMMMMMMMMMMMMMMmy-`    \u{1b}[31m`yyyyy+\n\u{1b}[37m   `:dMMMMMMMMMMMMMMMMMMMMMMd/`  \u{1b}[31m`yyyyys\n\u{1b}[37m  .hMMMMMMMNmhso/++symNMMMMMMMh- \u{1b}[31m`yyyyys\n\u{1b}[37m -mMMMMMMms-`         -omMMMMMMN-\u{1b}[31m.yyyyys\n\u{1b}[37m.mMMMMMMy.              .yMMMMMMm:\u{1b}[31myyyyys\n\u{1b}[37msMMMMMMy                 `sMMMMMMh\u{1b}[31myyyyys\n\u{1b}[37mNMMMMMN:                  .NMMMMMN\u{1b}[31myyyyys\n\u{1b}[37mMMMMMMm.                   NMMMMMN\u{1b}[31myyyyys\n\u{1b}[37mhMMMMMM+                  /MMMMMMN\u{1b}[31myyyyys\n\u{1b}[37m:NMMMMMN:                :mMMMMMM+\u{1b}[31myyyyys\n\u{1b}[37m oMMMMMMNs-            .sNMMMMMMs.\u{1b}[31myyyyys\n\u{1b}[37m  +MMMMMMMNho:.`  `.:ohNMMMMMMNo \u{1b}[31m`yyyyys\n\u{1b}[37m   -hMMMMMMMMNNNmmNNNMMMMMMMMh-  \u{1b}[31m`yyyyys\n\u{1b}[37m     :yNMMMMMMMMMMMMMMMMMMNy:`   \u{1b}[31m`yyyyys\n\u{1b}[37m       .:sdNMMMMMMMMMMNds/.      \u{1b}[31m`yyyyyo\n\u{1b}[37m           `.:/++++/:.`           \u{1b}[31m:oys+."@,
        Distro::BlueLight => "\u{1b}[37m              oMMNMMMMMMMMMMMMMMMMMMMMMM\n              oMMMMMMMMMMMMMMMMMMMMMMMMM\n              oMMMMMMMMMMMMMMMMMMMMMMMMM\n              oMMMMMMMMMMMMMMMMMMMMMMMMM\n              -+++++++++++++++++++++++mM\u{1b}[34m\n             ```````````````````````..\u{1b}[37mdM\u{1b}[34m\n           ```````````````````````....\u{1b}[37mdM\u{1b}[34m\n         ```````````````````````......\u{1b}[37mdM\u{1b}[34m\n       ```````````````````````........\u{1b}[37mdM\u{1b}[34m\n     ```````````````````````..........\u{1b}[37mdM\u{1b}[34m\n   ```````````````````````............\u{1b}[37mdM\u{1b}[34m\n.::::::::::::::::::::::-..............\u{1b}[37mdM\u{1b}[34m\n `-+yyyyyyyyyyyyyyyyyyyo............\u{1b}[37m+mMM\u{1b}[34m\n     -+yyyyyyyyyyyyyyyyo..........\u{1b}[37m+mMMMM\u{1b}[34m\n        ./syyyyyyyyyyyyo........\u{1b}[37m+mMMMMMM\u{1b}[34m\n           ./oyyyyyyyyyo......\u{1b}[37m+mMMMMMMMM\u{1b}[34m\n              omdyyyyyyo....\u{1b}[37m+mMMMMMMMMMM\u{1b}[34m\n              \u{1b}[37moMMM\u{1b}[34mmdhyyo..\u{1b}[37m+mMMMMMMMMMMMM\n              oNNNNNNm\u{1b}[34mdso\u{1b}[37mmMMMMMMMMMMMMMM"@,
        Distro::Bonsai => "\u{1b}[32m   ,####,\n   \u{1b}[32m#######,  \u{1b}[32m,#####,\n   \u{1b}[32m#####',#  \u{1b}[32m'######\n    \u{1b}[32m''###'\u{1b}[33m';,,,'\u{1b}[32m###'\n   \u{1b}[33m       ,;  ''''\n   \u{1b}[33m      ;;;   \u{1b}[32m,#####,\n   \u{1b}[33m     ;;;'  ,,;\u{1b}[32m;;###\n   \u{1b}[33m     ';;;;''\u{1b}[32m'####'\n   \u{1b}[33m      ;;;\n   \u{1b}[33m   ,.;;';'',,,\n   \u{1b}[33m  '     '\n\u{1b}[36m #\n #                        O\n ##, ,##,',##, ,##  ,#,   ,\n # # #  # #''# #,,  # #   #\n '#' '##' #  #  ,,# '##;, #"@,
        Distro::BunsenLabs => "\u{1b}[37m        `++\n      -yMMs\n    `yMMMMN`\n   -NMMMMMMm.\n  :MMMMMMMMMN-\n .NMMMMMMMMMMM/\n yMMMMMMMMMMMMM/\n`MMMMMMNMMMMMMMN.\n-MMMMN+ /mMMMMMMy\n-MMMm`   `dMMMMMM\n`MMN.     .NMMMMM.\n hMy       yMMMMM`\n -Mo       +MMMMN\n  /o       +MMMMs\n           +MMMN`\n           hMMM:\n          `NMM/\n          +MN:\n          mh.\n         -/"@,
        Distro::Calculate => "\u{1b}[37m                              ......\n                           ,,+++++++,.\n                         .,,,....,,,\u{1b}[33m+**+,,.\u{1b}[37m\n                       ............,\u{1b}[33m++++,,,\u{1b}[37m\n                      ...............\n                    ......,,,........\n                  .....+*#####+,,,*+.\n              .....,*###############,..,,,,,,..\n           ......,*#################*..,,,,,..,,,..\n         .,,....*####################+***+,,,,...,++,\n       .,,..,..*#####################*,\n     ,+,.+*..*#######################.\n   ,+,,+*+..,########################*\n.,++++++.  ..+##**###################+\n.....      ..+##***#################*.\n           .,.*#*****##############*.\n           ..,,*********#####****+.\n     \u{1b}[33m.,++*****+++\u{1b}[37m*****************\u{1b}[33m+++++,.\u{1b}[37m\n      \u{1b}[33m,++++++**+++++\u{1b}[37m***********\u{1b}[33m+++++++++,\u{1b}[37m\n     \u{1b}[33m.,,,,++++,..  .,,,,,.....,+++,.,,\u{1b}[37m"@,
        Distro::Carbs => "\u{1b}[35m             ..........\n          ..,;:ccccccc:;'..\n       ..,clllc:;;;;;:cllc,.\n      .,cllc,...     ..';;'.\n     .;lol;..           ..\n    .,lol;.\n    .coo:.\n   .'lol,.\n   .,lol,.\n   .,lol,.\n    'col;.\n    .:ooc'.\n    .'col:.\n     .'cllc'..          .''.\n      ..:lolc,'.......',cll,.\n        ..;cllllccccclllc;'.\n          ...',;;;;;;,,...\n                ....."@,
        Distro::CblMariner => "\u{1b}[36m                    .\n                  :-  .\n                :==. .=:\n              :===:  -==:\n            :-===:  .====:\n          :-====-   -=====:\n         -======   :=======:\n        -======.  .=========:\n       -======:   -==========.\n      -======-    -===========.\n     :======-      :===========.\n    :=======.       .-==========.\n   :=======:          -==========.\n  :=======-            :==========.\n :=======-              .-========-\n:--------.                :========-\n                    ..:::--=========-\n            ..::---================-=-"@,
        Distro::CelOs => "\u{1b}[35m                     .,cmmmmmmmmmmmc,.\n                .,cmMMMMMMMMMMMMMMMMMMMMmc.\n             .cMMMMMMMMMMMMMMMMMMMMMMMMMMMmc.\n           .cMMMMMMMMMMMMMMMMMMMMMMMMMMMMMMMMc.\n         ,:MMM \u{1b}[30m####################################\u{1b}[35m\n        cMMMMMMmmmmmmmmmmmmmmmmmmmmmmmmmmmmmmmmmc.\n       .MMMMMMMMMMMMMMMMMMMMMMMMMMMMMMMMMMMMMMMMMM.\n      .MMMMMMMMMMMMMMMMMMMMMMMMMMMMMMMMMMMMMMMMMMMc\n      \"******************************MMMMMMMMMMMMMc:\n\u{1b}[30m#################################### \u{1b}[35mMMMMMMMMMMMMMc\n      \"MMMMMMMMMMMMMMMMMMMMMMMMMMMMMMMMMMMMMMMMMMM:\n       \"MMMMMMMMMMMMMMMMMMMMMMMMMMMMMMMMMMMMMMMMMM\"\n       'MMMMMMMMM*******************************:\n        \\\"MMMMMM \u{1b}[30m#####################################\n         \u{1b}[35m`:MMMMMMmmmmmmmmmmmmmmmmmmmmmmmmmmmmm;\n           `\"MMMMMMMMMMMMMMMMMMMMMMMMMMMMMMMM\"\n             `\":MMMMMMMMMMMMMMMMMMMMMMMMM;'\n                `\":MMMMMMMMMMMMMMMMMMM:\"\n                     \"************\""@,
        Distro::CentosSmall => "\u{1b}[32m ____\u{1b}[33m^\u{1b}[35m____\n\u{1b}[32m |\\\\  \u{1b}[33m|\u{1b}[35m  /|\n\u{1b}[32m | \\\\ \u{1b}[33m|\u{1b}[35m / |\n\u{1b}[35m<---- \u{1b}[34m---->\n\u{1b}[34m | / \u{1b}[32m|\u{1b}[33m \\\\ |\n\u{1b}[34m |/__\u{1b}[32m|\u{1b}[33m__\\\\|\n\u{1b}[32m     v"@,
        Distro::CentOs => "\u{1b}[33m                 ..\n               .PLTJ.\n              <><><><>\n     \u{1b}[32mKKSSV' 4KKK \u{1b}[33mLJ\u{1b}[35m KKKL.'VSSKK\n     \u{1b}[32mKKV' 4KKKKK \u{1b}[33mLJ\u{1b}[35m KKKKAL 'VKK\n     \u{1b}[32mV' ' 'VKKKK \u{1b}[33mLJ\u{1b}[35m KKKKV' ' 'V\n     \u{1b}[32m.4MA.' 'VKK \u{1b}[33mLJ\u{1b}[35m KKV' '.4Mb.\n\u{1b}[35m   . \u{1b}[32mKKKKKA.' 'V \u{1b}[33mLJ\u{1b}[35m V' '.4KKKKK \u{1b}[34m.\n\u{1b}[35m .4D \u{1b}[32mKKKKKKKA.'' \u{1b}[33mLJ\u{1b}[35m ''.4KKKKKKK \u{1b}[34mFA.\n\u{1b}[35m<QDD ++++++++++++  \u{1b}[34m++++++++++++ GFD>\n\u{1b}[35m 'VD \u{1b}[34mKKKKKKKK'.. \u{1b}[32mLJ \u{1b}[33m..'KKKKKKKK \u{1b}[34mFV\n\u{1b}[35m   ' \u{1b}[34mVKKKKK'. .4 \u{1b}[32mLJ \u{1b}[33mK. .'KKKKKV \u{1b}[34m'\n     \u{1b}[34m 'VK'. .4KK \u{1b}[32mLJ \u{1b}[33mKKA. .'KV'\n     \u{1b}[34mA. . .4KKKK \u{1b}[32mLJ \u{1b}[33mKKKKA. . .4\n     \u{1b}[34mKKA. 'KKKKK \u{1b}[32mLJ \u{1b}[33mKKKKK' .4KK\n     \u{1b}[34mKKSSA. VKKK \u{1b}[32mLJ \u{1b}[33mKKKV .4SSKK\n\u{1b}[32m              <><><><>\n               'MKKM'\n                 ''"@,
        Distro::Chakra => "\u{1b}[34m     _ _ _        \"kkkkkkkk.\n   ,kkkkkkkk.,    'kkkkkkkkk,\n   ,kkkkkkkkkkkk., 'kkkkkkkkk.\n  ,kkkkkkkkkkkkkkkk,'kkkkkkkk,\n ,kkkkkkkkkkkkkkkkkkk'kkkkkkk.\n  \"''\"''',;::,,\"''kkk''kkkkk;   __\n      ,kkkkkkkkkk, \"k''kkkkk' ,kkkk\n    ,kkkkkkk' ., ' .: 'kkkk',kkkkkk\n  ,kkkkkkkk'.k'   ,  ,kkkk;kkkkkkkkk\n ,kkkkkkkk';kk 'k  \"'k',kkkkkkkkkkkk\n.kkkkkkkkk.kkkk.'kkkkkkkkkkkkkkkkkk'\n;kkkkkkkk''kkkkkk;'kkkkkkkkkkkkk''\n'kkkkkkk; 'kkkkkkkk.,\"\"''\"''\"\"\n  ''kkkk;  'kkkkkkkkkk.,\n     ';'    'kkkkkkkkkkkk.,\n             ';kkkkkkkkkk'\n               ';kkkkkk'\n                  \"''\""@,
        Distro::ChaletOs => "\u{1b}[34m             `.//+osso+/:``\n         `/sdNNmhyssssydmNNdo:`\n       :hNmy+-`          .-+hNNs-\n     /mMh/`       `+:`       `+dMd:\n   .hMd-        -sNNMNo.  /yyy  /mMs`\n  -NM+       `/dMd/--omNh::dMM   `yMd`\n .NN+      .sNNs:/dMNy:/hNmo/s     yMd`\n hMs    `/hNd+-smMMMMMMd+:omNy-    `dMo\n:NM.  .omMy:/hNMMMMMMMMMMNy:/hMd+`  :Md`\n/Md` `sm+.omMMMMMMMMMMMMMMMMd/-sm+  .MN:\n/Md`      MMMMMMMMMMMMMMMMMMMN      .MN:\n:NN.      MMMMMMm....--NMMMMMN      -Mm.\n`dMo      MMMMMMd      mMMMMMN      hMs\n -MN:     MMMMMMd      mMMMMMN     oMm`\n  :NM:    MMMMMMd      mMMMMMN    +Mm-\n   -mMy.  mmmmmmh      dmmmmmh  -hMh.\n     oNNs-                    :yMm/\n      .+mMdo:`            `:smMd/`\n         -ohNNmhsoo++osshmNNh+.\n            `./+syyhhyys+:``"@,
        Distro::Chapeau => "\u{1b}[32m               .-/-.\n            ////////.\n          ////////\u{1b}[37my+\u{1b}[32m//.\n        ////////\u{1b}[37mmMN\u{1b}[32m/////.\n      ////////\u{1b}[37mmMN+\u{1b}[32m////////.\n    ////////////////////////.\n  /////////+\u{1b}[37mshhddhyo\u{1b}[32m+////////.\n ////////\u{1b}[37mymMNmdhhdmNNdo\u{1b}[32m///////.\n///////+\u{1b}[37mmMms\u{1b}[32m////////\u{1b}[37mhNMh\u{1b}[32m///////.\n///////\u{1b}[37mNMm+\u{1b}[32m//////////\u{1b}[37msMMh\u{1b}[32m///////\n//////\u{1b}[37moMMNmmmmmmmmmmmmMMm\u{1b}[32m///////\n//////\u{1b}[37m+MMmssssssssssssss+\u{1b}[32m///////\n`//////\u{1b}[37myMMy\u{1b}[32m////////////////////\n `//////\u{1b}[37msmMNhso++oydNm\u{1b}[32m////////\n  `///////\u{1b}[37mohmNMMMNNdy+\u{1b}[32m///////\n    `//////////\u{1b}[37m++\u{1b}[32m//////////\n       `////////////////.\n           -////////-"@,
        Distro::Chrom => "\u{1b}[31m            .,:loool:,.\n        .,coooooooooooooc,.\n     .,lllllllllllllllllllll,.\n    ;ccccccccccccccccccccccccc;\n\u{1b}[32m  '\u{1b}[31mccccccccccccccccccccccccccccc.\n\u{1b}[32m ,oo\u{1b}[31mc::::::::okO\u{1b}[37m000\u{1b}[33m0OOkkkkkkkkkkk:\n\u{1b}[32m.ooool\u{1b}[31m;;;;:x\u{1b}[37mK0\u{1b}[34mkxxxxxk\u{1b}[37m0X\u{1b}[33mK0000000000.\n\u{1b}[32m:oooool\u{1b}[31m;,;O\u{1b}[37mK\u{1b}[34mddddddddddd\u{1b}[37mKX\u{1b}[33m000000000d\n\u{1b}[32mlllllool\u{1b}[31m;l\u{1b}[37mN\u{1b}[34mdllllllllllld\u{1b}[37mN\u{1b}[33mK000000000\n\u{1b}[32mlllllllll\u{1b}[31mo\u{1b}[37mM\u{1b}[34mdccccccccccco\u{1b}[37mW\u{1b}[33mK000000000\n\u{1b}[32m;cllllllllX\u{1b}[37mX\u{1b}[34mc:::::::::c\u{1b}[37m0X\u{1b}[33m000000000d\n\u{1b}[32m.ccccllllllO\u{1b}[37mNk\u{1b}[34mc;,,,;cx\u{1b}[37mKK\u{1b}[33m0000000000.\n\u{1b}[32m .cccccclllllxOO\u{1b}[37mOOO\u{1b}[32mOkx\u{1b}[33mO0000000000;\n\u{1b}[32m  .:ccccccccllllllllo\u{1b}[33mO0000000OOO,\n\u{1b}[32m    ,:ccccccccclllcd\u{1b}[33m0000OOOOOOl.\n\u{1b}[32m      '::ccccccccc\u{1b}[33mdOOOOOOOkx:.\n\u{1b}[32m        ..,::cccc\u{1b}[33mxOOOkkko;.\n\u{1b}[32m            ..,:\u{1b}[33mdOkxl:."@,
        Distro::CleanjaroSmall => "\u{1b}[37m█████ ██████████\n█████ ██████████\n█████\n█████\n█████\n████████████████\n████████████████"@,
        Distro::Cleanjaro => "\u{1b}[37m███████▌ ████████████████\n███████▌ ████████████████\n███████▌ ████████████████\n███████▌\n███████▌\n███████▌\n███████▌\n███████▌\n█████████████████████████\n█████████████████████████\n█████████████████████████\n▀▀▀▀▀▀▀▀▀▀▀▀▀▀▀▀▀▀▀▀▀▀▀▀▀"@,
        Distro::ClearOs => "\u{1b}[32m             `.--::::::--.`\n         .-:////////////////:-.\n      `-////////////////////////-`\n     -////////////////////////////-\n   `//////////////-..-//////////////`\n  ./////////////:      ://///////////.\n `//////:..-////:      :////-..-//////`\n ://////`    -///:.``.:///-`    ://///:\n`///////:.     -////////-`    `:///////`\n.//:--////:.     -////-`    `:////--://.\n./:    .////:.     --`    `:////-    :/.\n`//-`    .////:.        `:////-    `-//`\n :///-`    .////:.    `:////-    `-///:\n `/////-`    -///:    :///-    `-/////`\n  `//////-   `///:    :///`   .//////`\n   `:////:   `///:    :///`   -////:`\n     .://:   `///:    :///`   -//:.\n       .::   `///:    :///`   -:.\n             `///:    :///`\n              `...    ...`"@,
        Distro::ClearLinuxOs => "\u{1b}[34m          BBB\n       BBBBBBBBB\n     BBBBBBBBBBBBBBB\n   BBBBBBBBBBBBBBBBBBBB\n   BBBBBBBBBBB         BBB\n  BBBBBBBB\u{1b}[33mYYYYY\n\u{1b}[34m  BBBBBBBB\u{1b}[33mYYYYYY\n\u{1b}[34m  BBBBBBBB\u{1b}[33mYYYYYYY\n\u{1b}[34m  BBBBBBBBB\u{1b}[33mYYYYY\u{1b}[37mW\n\u{1b}[36m GG\u{1b}[34mBBBBBBBY\u{1b}[33mYYYY\u{1b}[37mWWW\n\u{1b}[36m GGG\u{1b}[34mBBBBBBB\u{1b}[33mYY\u{1b}[37mWWWWWWWW\n\u{1b}[36m GGGGGG\u{1b}[34mBBBBBB\u{1b}[37mWWWWWWWW\n\u{1b}[36m GGGGGGGG\u{1b}[34mBBBB\u{1b}[37mWWWWWWWW\n\u{1b}[36mGGGGGGGGGGG\u{1b}[34mBBB\u{1b}[37mWWWWWWW\n\u{1b}[36mGGGGGGGGGGGGG\u{1b}[34mB\u{1b}[37mWWWWWW\n\u{1b}[36mGGGGGGGG\u{1b}[37mWWWWWWWWWWW\n\u{1b}[36mGG\u{1b}[37mWWWWWWWWWWWWWWWW\n WWWWWWWWWWWWWWWW\n      WWWWWWWWWW\n          WWW"@,
        Distro::Clover => "\u{1b}[32m               `omo``omo`\n             `oNMMMNNMMMNo`\n           `oNMMMMMMMMMMMMNo`\n          oNMMMMMMMMMMMMMMMMNo\n          `sNMMMMMMMMMMMMMMNs`\n     `omo`  `sNMMMMMMMMMMNs`  `omo`\n   `oNMMMNo`  `sNMMMMMMNs`  `oNMMMNo`\n `oNMMMMMMMNo`  `oNMMNs`  `oNMMMMMMMNo`\noNMMMMMMMMMMMNo`  `sy`  `oNMMMMMMMMMMMNo\n`sNMMMMMMMMMMMMNo.\u{1b}[36moNNs\u{1b}[32m.oNMMMMMMMMMMMMNs`\n`oNMMMMMMMMMMMMNs.\u{1b}[36moNNs\u{1b}[32m.oNMMMMMMMMMMMMNo`\noNMMMMMMMMMMMNs`  `sy`  `oNMMMMMMMMMMMNo\n `oNMMMMMMMNs`  `oNMMNo`  `oNMMMMMMMNs`\n   `oNMMMNs`  `sNMMMMMMNs`  `oNMMMNs`\n     `oNs`  `sNMMMMMMMMMMNs`  `oNs`\n          `sNMMMMMMMMMMMMMMNs`\n          +NMMMMMMMMMMMMMMMMNo\n           `oNMMMMMMMMMMMMNo`\n             `oNMMMNNMMMNs`\n               `omo``oNs`"@,
        Distro::Condres => "\u{1b}[32msyyyyyyyyyyyyyyyyyyyyyyyyyyyyyyyyyyy+\u{1b}[36m.+.\n\u{1b}[32m`oyyyyyyyyyyyyyyyyyyyyyyyyyyyyyyyyy+\u{1b}[36m:++.\n\u{1b}[33m/o\u{1b}[32m+oyyyyyyyyyyyyyyyyyyyyyyyyyyyyyy/\u{1b}[36moo++.\n\u{1b}[33m/y+\u{1b}[32msyyyyyyyyyyyyyyyyyyyyyyyyyyyyy\u{1b}[36m+ooo++.\n\u{1b}[33m/hy+\u{1b}[32moyyyhhhhhhhhhhhhhhyyyyyyyyy\u{1b}[36m+oo+++++.\n\u{1b}[33m/hhh+\u{1b}[32mshhhhhdddddhhhhhhhyyyyyyy\u{1b}[36m+oo++++++.\n\u{1b}[33m/hhdd+\u{1b}[32moddddddddddddhhhhhyyyys\u{1b}[36m+oo+++++++.\n\u{1b}[33m/hhddd+\u{1b}[32modmmmdddddddhhhhyyyy\u{1b}[36m+ooo++++++++.\n\u{1b}[33m/hhdddmo\u{1b}[32modmmmdddddhhhhhyyy\u{1b}[36m+oooo++++++++.\n\u{1b}[33m/hdddmmms\u{1b}[32m/dmdddddhhhhyyys\u{1b}[36m+oooo+++++++++.\n\u{1b}[33m/hddddmmmy\u{1b}[32m/hdddhhhhyyyyo\u{1b}[36m+oooo++++++++++:\n\u{1b}[33m/hhdddmmmmy\u{1b}[32m:yhhhhyyyyy+\u{1b}[36m+oooo+++++++++++:\n\u{1b}[33m/hhddddddddy\u{1b}[32m-syyyyyys+\u{1b}[36mooooo++++++++++++:\n\u{1b}[33m/hhhddddddddy\u{1b}[32m-+yyyy+\u{1b}[36m/ooooo+++++++++++++:\n\u{1b}[33m/hhhhhdddddhhy\u{1b}[32m./yo:\u{1b}[36m+oooooo+++++++++++++/\n\u{1b}[33m/hhhhhhhhhhhhhy\u{1b}[32m:-.\u{1b}[36m+sooooo+++++++++++///:\n\u{1b}[33m:sssssssssssso++\u{1b}[32m\u{1b}[36m`:/:--------.````````"@,
        Distro::ContainerLinuxByCoreOs => "\u{1b}[34m                .....\n          .';:cccccccc:;'.\n        ':ccccclc\u{1b}[31mlllllllll\u{1b}[34mcc:.\n     .;cccccccc\u{1b}[31mlllllllllllllll\u{1b}[34mc,\n    ;clllccccc\u{1b}[31mllllllllllllllllll\u{1b}[34mc,\n  .cllclccccc\u{1b}[31mlllll\u{1b}[37mlll\u{1b}[31mllllllllllll\u{1b}[34mc:\n  ccclclcccc\u{1b}[31mcllll\u{1b}[37mkWMMNKk\u{1b}[31mllllllllll\u{1b}[34mc:\n :ccclclcccc\u{1b}[31mllll\u{1b}[37moWMMMMMMWO\u{1b}[31mlllllllll\u{1b}[34mc,\n.ccllllllccc\u{1b}[31mclll\u{1b}[37mOMMMMMMMMM0\u{1b}[31mlllllllll\u{1b}[34mc\n.lllllclcccc\u{1b}[31mllll\u{1b}[37mKMMMMMMMMMMo\u{1b}[31mllllllll\u{1b}[34mc.\n.lllllllcccc\u{1b}[31mclll\u{1b}[37mKMMMMMMMMN0\u{1b}[31mlllllllll\u{1b}[34mc.\n.cclllllcccc\u{1b}[31mlllld\u{1b}[37mxkkxxdo\u{1b}[31mllllllllllc\u{1b}[34mlc\n :cccllllllcccc\u{1b}[31mlllccllllcclccc\u{1b}[34mcccccc;\n .ccclllllllcccccccc\u{1b}[31mlll\u{1b}[34mccccclccccccc\n  .cllllllllllclcccclccclccllllcllc\n    :cllllllllccclcllllllllllllcc;\n     .cccccccccccccclcccccccccc:.\n       .;cccclccccccllllllccc,.\n          .';ccccclllccc:;..\n                ....."@,
        Distro::CruxSmall => "\u{1b}[34m    ___\n   (\u{1b}[37m.· \u{1b}[34m|\n   (\u{1b}[35m<> \u{1b}[34m|\n  / \u{1b}[37m__  \u{1b}[34m\\\\\n ( \u{1b}[37m/  \\\\ \u{1b}[34m/|\n\u{1b}[35m_\u{1b}[34m/\\\\ \u{1b}[37m__)\u{1b}[34m/\u{1b}[35m_\u{1b}[34m)\n\u{1b}[35m\\/\u{1b}[34m-____\u{1b}[35m\\/"@,
        Distro::Crux => "\u{1b}[34m         odddd\n      oddxkkkxxdoo\n     ddcoddxxxdoool\n     xdclodod  olol\n     xoc  xdd  olol\n     xdc  \u{1b}[35mk00\u{1b}[34mOkdlol\n     xxd\u{1b}[35mkOKKKOkd\u{1b}[34mldd\n     xdco\u{1b}[35mxOkdlo\u{1b}[34mdldd\n     ddc:cl\u{1b}[35mlll\u{1b}[34moooodo\n   odxxdd\u{1b}[37mxkO000kx\u{1b}[34mooxdo\n  oxdd\u{1b}[37mx0NMMMMMMWW0od\u{1b}[34mkkxo\n oooxd\u{1b}[37m0WMMMMMMMMMW0o\u{1b}[34mdxkx\ndocldkXW\u{1b}[37mMMMMMMMWWN\u{1b}[34mOdolco\nxx\u{1b}[35mdx\u{1b}[34mkxxOKN\u{1b}[37mWMMWN\u{1b}[34m0xdoxo::c\n\u{1b}[35mxOkkO\u{1b}[34m0oo\u{1b}[37modOW\u{1b}[35mWW\u{1b}[34mXkdodOxc:l\n\u{1b}[35mdkkkxkkk\u{1b}[37mOKX\u{1b}[35mNNNX0Oxx\u{1b}[34mxc:cd\n\u{1b}[35m odxxdx\u{1b}[37mxllod\u{1b}[35mddooxx\u{1b}[34mdc:ldo\n\u{1b}[35m   lodd\u{1b}[34mdolccc\u{1b}[35mccox\u{1b}[34mxoloo"@,
        Distro::CrystalLinux => "\u{1b}[95m                        mysssym\n\u{1b}[95m                      mysssym\n\u{1b}[95m                    mysssym\n\u{1b}[95m                  mysssym\n\u{1b}[95m                mysssyd\n\u{1b}[95m              mysssyd    N\n\u{1b}[95m            mysssyd    mysym\n\u{1b}[95m          mysssyd      dysssym\n\u{1b}[95m        mysssyd          dysssym\n\u{1b}[95m      mysssyd              dysssym\n\u{1b}[95m      mysssyd              dysssym\n\u{1b}[95m        mysssyd          dysssym\n\u{1b}[95m          mysssyd      dysssym\n\u{1b}[95m            mysym    dysssym\n\u{1b}[95m              N    dysssym\n\u{1b}[95m                 dysssym\n\u{1b}[95m               dysssym\n\u{1b}[95m             dysssym\n\u{1b}[95m           dysssym\n\u{1b}[95m         dysssym"@,
        Distro::Cucumber => "\u{1b}[32m           `.-://++++++//:-.`\n        `:/+//\u{1b}[33m::--------\u{1b}[32m:://+/:`\n      -++/:\u{1b}[33m----..........----\u{1b}[32m:/++-\n    .++:\u{1b}[33m---...........-......---\u{1b}[32m:++.\n   /+:\u{1b}[33m---....-::/:/--//:::-....---\u{1b}[32m:+/\n `++:\u{1b}[33m--.....:---::/--/::---:.....--\u{1b}[32m:++`\n /+:\u{1b}[33m--.....--.--::::-/::--.--.....--\u{1b}[32m:+/\n-o:\u{1b}[33m--.......-:::://--/:::::-.......--\u{1b}[32m:o-\n/+:\u{1b}[33m--...-:-::---:::..:::---:--:-...--\u{1b}[32m:+/\no/:\u{1b}[33m-...-:.:.-/:::......::/:.--.:-...-\u{1b}[32m:/o\no/\u{1b}[33m--...::-:/::/:-......-::::::-/-...-\u{1b}[32m:/o\n/+:\u{1b}[33m--..-/:/:::--:::..:::--::////-..--\u{1b}[32m:+/\n-o:\u{1b}[33m--...----::/:::/--/:::::-----...--\u{1b}[32m:o-\n /+:\u{1b}[33m--....://:::.:/--/:.::://:....--\u{1b}[32m:+/\n `++:\u{1b}[33m--...-:::.--.:..:.--.:/:-...--\u{1b}[32m:++`\n   /+:\u{1b}[33m---....----:-..-:----....---\u{1b}[32m:+/\n    .++:\u{1b}[33m---..................---\u{1b}[32m:++.\n      -/+/:\u{1b}[33m----..........----\u{1b}[32m:/+/-\n        `:/+//\u{1b}[33m::--------:::\u{1b}[32m/+/:`\n           `.-://++++++//:-.`"@,
        Distro::Dahlia => "\u{1b}[31m\n                  .#.\n                *%@@@%*\n        .,,,,,(&@@@@@@@&/,,,,,.\n       ,#@@@@@@@@@@@@@@@@@@@@@#.\n       ,#@@@@@@@&#///#&@@@@@@@#.\n     ,/%&@@@@@%/,    .,(%@@@@@&#/.\n   *#&@@@@@@#,.         .*#@@@@@@&#,\n .&@@@@@@@@@(            .(@@@@@@@@@&&.\n#@@@@@@@@@@(               )@@@@@@@@@@@#\n °@@@@@@@@@@(            .(@@@@@@@@@@@°\n   *%@@@@@@@(.           ,#@@@@@@@%*\n     ,(&@@@@@@%*.     ./%@@@@@@%(,\n       ,#@@@@@@@&(***(&@@@@@@@#.\n       ,#@@@@@@@@@@@@@@@@@@@@@#.\n        ,*****#&@@@@@@@&(*****,\n               ,/%@@@%/.\n                  ,#,"@,
        Distro::DebianSmall => "\u{1b}[31m  _____\n /  __ \\\\\n|  /    |\n|  \\\\___-\n-_\n  --_"@,
        Distro::Debian => "\u{1b}[37m       _,met$$$$$gg.\n    ,g$$$$$$$$$$$$$$$P.\n  ,g$$P\"        \"\"\"Y$$.\".\n ,$$P'              `$$$.\n',$$P       ,ggs.     `$$b:\n`d$$'     ,$P\"'   \u{1b}[31m.\u{1b}[37m    $$$\n $$P      d$'     \u{1b}[31m,\u{1b}[37m    $$P\n $$:      $$.   \u{1b}[31m-\u{1b}[37m    ,d$$'\n $$;      Y$b._   _,d$P'\n Y$$.    \u{1b}[31m`.\u{1b}[37m`\"Y$$$$P\"'\n\u{1b}[37m `$$b      \u{1b}[31m\"-.__\n\u{1b}[37m  `Y$$\n   `Y$$.\n     `$$b.\n       `Y$$b.\n          `\"Y$b._\n              `\"\"\""@,
        Distro::Deepin => "\u{1b}[32m             ............\n         .';;;;;.       .,;,.\n      .,;;;;;;;.       ';;;;;;;.\n    .;::::::::'     .,::;;,''''',.\n   ,'.::::::::    .;;'.          ';\n  ;'  'cccccc,   ,' :: '..        .:\n ,,    :ccccc.  ;: .c, '' :.       ,;\n.l.     cllll' ., .lc  :; .l'       l.\n.c       :lllc  ;cl:  .l' .ll.      :'\n.l        'looc. .   ,o:  'oo'      c,\n.o.         .:ool::coc'  .ooo'      o.\n ::            .....   .;dddo      ;c\n  l:...            .';lddddo.     ,o\n   lxxxxxdoolllodxxxxxxxxxc      :l\n    ,dxxxxxxxxxxxxxxxxxxl.     'o,\n      ,dkkkkkkkkkkkkko;.    .;o;\n        .;okkkkkdl;.    .,cl:.\n            .,:cccccccc:,."@,
        Distro::DesaOs => "\u{1b}[32m███████████████████████\n███████████████████████\n███████████████████████\n███████████████████████\n████████               ███████\n████████               ███████\n████████               ███████\n████████               ███████\n████████               ███████\n████████               ███████\n████████               ███████\n██████████████████████████████\n██████████████████████████████\n████████████████████████\n████████████████████████\n████████████████████████"@,
        Distro::Devuan => "\u{1b}[35m   ..,,;;;::;,..\n           `':ddd;:,.\n                 `'dPPd:,.\n                     `:b$$b`.\n                        'P$$$d`\n                         .$$$$$`\n                         ;$$$$$P\n                      .:P$$$$$$`\n                  .,:b$$$$$$$;'\n             .,:dP$$$$$$$$b:'\n      .,:;db$$$$$$$$$$Pd'`\n ,db$$$$$$$$$$$$$$b:'`\n:$$$$$$$$$$$$b:'`\n `$$$$$bd:''`\n   `'''`"@,
        Distro::DracOs => "\u{1b}[31m       `-:/-\n          -os:\n            -os/`\n              :sy+-`\n               `/yyyy+.\n                 `+yyyyo-\n                   `/yyyys:\n`:osssoooo++-        +yyyyyy/`\n   ./yyyyyyo         yo`:syyyy+.\n      -oyyy+         +-   :yyyyyo-\n        `:sy:        `.    `/yyyyys:\n           ./o/.`           .oyyso+oo:`\n              :+oo+//::::///:-.`     `.`"@,
        Distro::Itc => "\u{1b}[31m....................-==============+...\n\u{1b}[31m....................-==============:...\n\u{1b}[31m...:===========-....-==============:...\n\u{1b}[31m...-===========:....-==============-...\n\u{1b}[31m....*==========+........-::********-...\n\u{1b}[31m....*===========+.:*====**==*+-.-......\n\u{1b}[31m....:============*+-..--:+**====*---...\n\u{1b}[31m......::--........................::...\n\u{1b}[31m..+-:+-.+::*:+::+:-++::++-.:-.*.:++:++.\n\u{1b}[31m..:-:-++++:-::--:+::-::.:++-++:++--:-:.    ⠀⠀⠀⠀⠀\n⠀⠀⠀⠀⠀⠀⠀⠀⠀⠀"@,
        Distro::DragonflyOld => "\u{1b}[31m                   .-.\n                 \u{1b}[33m ()\u{1b}[31mI\u{1b}[33m()\n            \u{1b}[31m \"==.__:-:__.==\"\n            \"==.__/~|~\\__.==\"\n            \"==._(  Y  )_.==\"\n \u{1b}[37m.-'~~\"\"~=--...,__\u{1b}[31m\\/|\\/\u{1b}[37m__,...--=~\"\"~~'-.\n(               ..=\u{1b}[31m\\\\=\u{1b}[31m/\u{1b}[37m=..               )\n `'-.        ,.-\"`;\u{1b}[31m/=\\\\\u{1b}[37m;\"-.,_        .-'`\n     `~\"-=-~` .-~` \u{1b}[31m|=|\u{1b}[37m `~-. `~-=-\"~`\n          .-~`    /\u{1b}[31m|=|\u{1b}[37m\\    `~-.\n       .~`       / \u{1b}[31m|=|\u{1b}[37m \\       `~.\n   .-~`        .'  \u{1b}[31m|=|\u{1b}[37m  `.        `~-.\n (`     _,.-=\"`  \u{1b}[31m  |=|\u{1b}[37m    `\"=-.,_     `)\n  `~\"~\"`        \u{1b}[31m   |=|\u{1b}[37m           `\"~\"~`\n                 \u{1b}[31m  /=\\\\\n                   \\\\=/\n                    ^"@,
        Distro::DragonflySmall => "\u{1b}[37m   ,\u{1b}[31m_\u{1b}[37m,\n('-_\u{1b}[31m|\u{1b}[37m_-')\n >--\u{1b}[31m|\u{1b}[37m--<\n(_-'\u{1b}[31m|\u{1b}[37m'-_)\n    \u{1b}[31m|\n    |\n    |"@,
        Distro::DragonFly => "\u{1b}[37m,--,           \u{1b}[31m|           \u{1b}[37m,--,\n\u{1b}[37m|   `-,       \u{1b}[31m,^,       \u{1b}[37m,-'   |\n\u{1b}[37m `,    `-,   \u{1b}[33m(/ \\)   \u{1b}[37m,-'    ,'\n\u{1b}[37m   `-,    `-,\u{1b}[31m/   \\\u{1b}[37m,-'    ,-'\n\u{1b}[37m      `------\u{1b}[31m(   )\u{1b}[37m------'\n\u{1b}[37m  ,----------\u{1b}[31m(   )\u{1b}[37m----------,\n\u{1b}[37m |        _,-\u{1b}[31m(   )\u{1b}[37m-,_        |\n\u{1b}[37m  `-,__,-'   \u{1b}[31m\\   /\u{1b}[37m   `-,__,-'\n\u{1b}[31m              | |\n              | |\n              | |\n              | |\n              | |\n              | |\n              `|'"@,
        Distro::Drauger => "\u{1b}[31m                  -``-\n                `:+``+:`\n               `/++``++/.\n              .++/.  ./++.\n             :++/`    `/++:\n           `/++:        :++/`\n          ./+/-          -/+/.\n         -++/.            ./++-\n        :++:`              `:++:\n      `/++-                  -++/`\n     ./++.                    ./+/.\n    -++/`                      `/++-\n   :++:`                        `:++:\n `/++-                            -++/`\n.:-.`..............................`.-:.\n`.-/++++++++++++++++++++++++++++++++/-.`"@,
        Distro::ElementarySmall => "\u{1b}[37m  _______\n / ____  \\\\\n/  |  /  /\\\\\n|__\\\\ /  / |\n\\\\   /__/  /\n \\\\_______/"@,
        Distro::Elementary => "\u{1b}[37m         eeeeeeeeeeeeeeeee\n      eeeeeeeeeeeeeeeeeeeeeee\n    eeeee  eeeeeeeeeeee   eeeee\n  eeee   eeeee       eee     eeee\n eeee   eeee          eee     eeee\neee    eee            eee       eee\neee   eee            eee        eee\nee    eee           eeee       eeee\nee    eee         eeeee      eeeeee\nee    eee       eeeee      eeeee ee\neee   eeee   eeeeee      eeeee  eee\neee    eeeeeeeeee     eeeeee    eee\n eeeeeeeeeeeeeeeeeeeeeeee    eeeee\n  eeeeeeee eeeeeeeeeeee      eeee\n    eeeee                 eeeee\n      eeeeeee         eeeeeee\n         eeeeeeeeeeeeeeeee"@,
        Distro::EndeavourOs => "\u{1b}[31m                     ./\u{1b}[35mo\u{1b}[34m.\n\u{1b}[31m                   ./\u{1b}[35msssso\u{1b}[34m-\n\u{1b}[31m                 `:\u{1b}[35mosssssss+\u{1b}[34m-\n\u{1b}[31m               `:+\u{1b}[35msssssssssso\u{1b}[34m/.\n\u{1b}[31m             `-/o\u{1b}[35mssssssssssssso\u{1b}[34m/.\n\u{1b}[31m           `-/+\u{1b}[35msssssssssssssssso\u{1b}[34m+:`\n\u{1b}[31m         `-:/+\u{1b}[35msssssssssssssssssso\u{1b}[34m+/.\n\u{1b}[31m       `.://o\u{1b}[35msssssssssssssssssssso\u{1b}[34m++-\n\u{1b}[31m      .://+\u{1b}[35mssssssssssssssssssssssso\u{1b}[34m++:\n\u{1b}[31m    .:///o\u{1b}[35mssssssssssssssssssssssssso\u{1b}[34m++:\n\u{1b}[31m  `:////\u{1b}[35mssssssssssssssssssssssssssso\u{1b}[34m+++.\n\u{1b}[31m`-////+\u{1b}[35mssssssssssssssssssssssssssso\u{1b}[34m++++-\n\u{1b}[31m `..-+\u{1b}[35moosssssssssssssssssssssssso\u{1b}[34m+++++/`\n   ./++++++++++++++++++++++++++++++/:.\n  `:::::::::::::::::::::::::------``"@,
        Distro::Endless => "\u{1b}[31m           `:+yhmNMMMMNmhy+:`\n        -odMMNhso//////oshNMMdo-\n      /dMMh+.              .+hMMd/\n    /mMNo`                    `oNMm:\n  `yMMo`                        `oMMy`\n `dMN-                            -NMd`\n hMN.                              .NMh\n/MM/                  -os`          /MM/\ndMm    `smNmmhs/- `:sNMd+   ``       mMd\nMMy    oMd--:+yMMMMMNo.:ohmMMMNy`    yMM\nMMy    -NNyyhmMNh+oNMMMMMy:.  dMo    yMM\ndMm     `/++/-``/yNNh+/sdNMNddMm-    mMd\n/MM/          `dNy:       `-::-     /MM/\n hMN.                              .NMh\n `dMN-                            -NMd`\n  `yMMo`                        `oMMy`\n    /mMNo`                    `oNMm/\n      /dMMh+.              .+hMMd/\n        -odMMNhso//////oshNMMdo-\n           `:+yhmNMMMMNmhy+:`"@,
        Distro::EuroLinux => "\u{1b}[34m                __\n         -wwwWWWWWWWWWwww-\n        -WWWWWWWWWWWWWWWWWWw-\n          \\WWWWWWWWWWWWWWWWWWW-\n  _Ww      `WWWWWWWWWWWWWWWWWWWw\n -W\u{1b}[37mE\u{1b}[34mWww                -WWWWWWWWW-\n_WW\u{1b}[37mU\u{1b}[34mWWWW-                _WWWWWWWW\n_WW\u{1b}[37mR\u{1b}[34mWWWWWWWWWWWWWWWWWWWWWWWWWWWWWW-\nwWW\u{1b}[37mO\u{1b}[34mWWWWWWWWWWWWWWWWWWWWWWWWWWWWWWW\nWWW\u{1b}[37mL\u{1b}[34mWWWWWWWWWWWWWWWWWWWWWWWWWWWWWWw\nWWW\u{1b}[37mI\u{1b}[34mWWWWWWWWWWWWWWWWWWWWWWWWWWWWww-\nwWW\u{1b}[37mN\u{1b}[34mWWWWw\n WW\u{1b}[37mU\u{1b}[34mWWWWWWw\n wW\u{1b}[37mX\u{1b}[34mWWWWWWWWww\n   wWWWWWWWWWWWWWWWw\n    wWWWWWWWWWWWWWWWw\n       WWWWWWWWWWWWWw\n           wWWWWWWWw"@,
        Distro::Exherbo => "\u{1b}[37m ,\nOXo.\nNXdX0:    .cok0KXNNXXK0ko:.\nKX  '0XdKMMK;.xMMMk, .0MMMMMXx;  ...\n'NO..xWkMMx   kMMM    cMMMMMX,NMWOxOXd.\n  cNMk  NK    .oXM.   OMMMMO. 0MMNo  kW.\n  lMc   o:       .,   .oKNk;   ;NMMWlxW'\n ;Mc    ..   .,,'    .0M\u{1b}[34mg;\u{1b}[37mWMN'dWMMMMMMO\n XX        ,WMMMMW.  cM\u{1b}[34mcfli\u{1b}[37mWMKlo.   .kMk\n.Mo        .WM\u{1b}[34mGD\u{1b}[37mMW.   XM\u{1b}[34mWO0\u{1b}[37mMMk        oMl\n,M:         ,XMMWx::,''oOK0x;          NM.\n'Ml      ,kNKOxxxxxkkO0XXKOd:.         oMk\n NK    .0Nxc\u{1b}[31m:::::::::::::::\u{1b}[37mfkKNk,      .MW\n ,Mo  .NXc\u{1b}[31m::\u{1b}[37mqXWXb\u{1b}[31m::::::::::\u{1b}[37moo\u{1b}[31m::\u{1b}[37mlNK.    .MW\n  ;Wo oMd\u{1b}[31m:::\u{1b}[37moNMNP\u{1b}[31m::::::::\u{1b}[37moWMMMx\u{1b}[31m:\u{1b}[37mc0M;   lMO\n   'NO;W0c\u{1b}[31m:::::::::::::::\u{1b}[37mdMMMMO\u{1b}[31m::\u{1b}[37mlMk  .WM'\n     xWONXdc\u{1b}[31m::::::::::::::\u{1b}[37moOOo\u{1b}[31m::\u{1b}[37mlXN. ,WMd\n      'KWWNXXK0Okxxo,\u{1b}[31m:::::::\u{1b}[37m,lkKNo  xMMO\n        :XMNxl,';:lodxkOO000Oxc. .oWMMo\n          'dXMMXkl;,.        .,o0MMNo'\n             ':d0XWMMMMWNNNNMMMNOl'\n                   ':okKXWNKkl'"@,
        Distro::FedoraSmall => "\u{1b}[94m        ,'''''.\n       |   ,.  |\n       |  |  '_'\n  ,....|  |..\n.'  ,_;|   ..'\n|  |   |  |\n|  ',_,'  |\n '.     ,'\n   '''''"@,
        Distro::FedoraOld => "\u{1b}[34m          /:-------------:\\\\\n       :-------------------::\n     :-----------\u{1b}[37m/shhOHbmp\u{1b}[34m---:\\\\\n   /-----------\u{1b}[37momMMMNNNMMD  \u{1b}[34m---:\n  :-----------\u{1b}[37msMMMMNMNMP\u{1b}[34m.    ---:\n :-----------\u{1b}[37m:MMMdP\u{1b}[34m-------    ---\\\\\n,------------\u{1b}[37m:MMMd\u{1b}[34m--------    ---:\n:------------\u{1b}[37m:MMMd\u{1b}[34m-------    .---:\n:----    \u{1b}[37moNMMMMMMMMMNho\u{1b}[34m     .----:\n:--     .\u{1b}[37m+shhhMMMmhhy++\u{1b}[34m   .------/\n:-    -------\u{1b}[37m:MMMd\u{1b}[34m--------------:\n:-   --------\u{1b}[37m/MMMd\u{1b}[34m-------------;\n:-    ------\u{1b}[37m/hMMMy\u{1b}[34m------------:\n:--\u{1b}[37m :dMNdhhdNMMNo\u{1b}[34m------------;\n:---\u{1b}[37m:sdNMMMMNds:\u{1b}[34m------------:\n:------\u{1b}[37m:://:\u{1b}[34m-------------::\n:---------------------://"@,
        Distro::Fedora => "\u{1b}[94m             .',;::::;,'.\n         .';:cccccccccccc:;,.\n      .;cccccccccccccccccccccc;.\n    .:cccccccccccccccccccccccccc:.\n  .;ccccccccccccc;\u{1b}[37m.:dddl:.\u{1b}[94m;ccccccc;.\n .:ccccccccccccc;\u{1b}[37mOWMKOOXMWd\u{1b}[94m;ccccccc:.\n.:ccccccccccccc;\u{1b}[37mKMMc\u{1b}[94m;cc;\u{1b}[37mxMMc\u{1b}[94m;ccccccc:.\n,cccccccccccccc;\u{1b}[37mMMM.\u{1b}[94m;cc;\u{1b}[37m;WW:\u{1b}[94m;cccccccc,\n:cccccccccccccc;\u{1b}[37mMMM.\u{1b}[94m;cccccccccccccccc:\n:ccccccc;\u{1b}[37moxOOOo\u{1b}[94m;\u{1b}[37mMMM0OOk.\u{1b}[94m;cccccccccccc:\ncccccc;\u{1b}[37m0MMKxdd:\u{1b}[94m;\u{1b}[37mMMMkddc.\u{1b}[94m;cccccccccccc;\nccccc;\u{1b}[37mXM0'\u{1b}[94m;cccc;\u{1b}[37mMMM.\u{1b}[94m;cccccccccccccccc'\nccccc;\u{1b}[37mMMo\u{1b}[94m;ccccc;\u{1b}[37mMMW.\u{1b}[94m;ccccccccccccccc;\nccccc;\u{1b}[37m0MNc.\u{1b}[94mccc\u{1b}[37m.xMMd\u{1b}[94m;ccccccccccccccc;\ncccccc;\u{1b}[37mdNMWXXXWM0:\u{1b}[94m;cccccccccccccc:,\ncccccccc;\u{1b}[37m.:odl:.\u{1b}[94m;cccccccccccccc:,.\n:cccccccccccccccccccccccccccc:'.\n.:cccccccccccccccccccccc:;,..\n  '::cccccccccccccc::;,."@,
        Distro::Feren => "\u{1b}[34m `----------`\n :+ooooooooo+.\n-o+oooooooooo+-\n..`/+++++++++++/...`````````````````\n   .++++++++++++++++++++++++++/////-\n    ++++++++++++++++++++++++++++++++//:`\n    -++++++++++++++++++++++++++++++/-`\n     ++++++++++++++++++++++++++++:.\n     -++++++++++++++++++++++++/.\n      +++++++++++++++++++++/-`\n      -++++++++++++++++++//-`\n        .:+++++++++++++//////-\n           .:++++++++//////////-\n             `-++++++---:::://///.\n           `.:///+++.             `\n          `........."@,
        Distro::FreebsdSmall => "\u{1b}[31m/\\\\,-'''''-,/\\\\\n\\\\_)       (_/\n|           |\n|           |\n ;         ;\n  '-_____-'"@,
        Distro::FreeMiNt => "\u{1b}[37m          ##\n          ##         #########\n                    ####      ##\n            ####  ####        ##\n####        ####  ##        ##\n        ####    ####      ##  ##\n        ####  ####  ##  ##  ##\n            ####  ######\n        ######  ##  ##  ####\n      ####    ################\n    ####        ##  ####\n    ##            ####  ######\n    ##      ##    ####  ####\n    ##    ##  ##    ##  ##  ####\n      ####  ##          ##  ##"@,
        Distro::Frugalware => "\u{1b}[34m          `++/::-.`\n         /o+++++++++/::-.`\n        `o+++++++++++++++o++/::-.`\n        /+++++++++++++++++++++++oo++/:-.``\n       .o+ooooooooooooooooooosssssssso++oo++/:-`\n       ++osoooooooooooosssssssssssssyyo+++++++o:\n      -o+ssoooooooooooosssssssssssssyyo+++++++s`\n      o++ssoooooo++++++++++++++sssyyyyo++++++o:\n     :o++ssoooooo\u{1b}[37m/-------------\u{1b}[34m+syyyyyo+++++oo\n    `o+++ssoooooo\u{1b}[37m/-----\u{1b}[34m+++++ooosyyyyyyo++++os:\n    /o+++ssoooooo\u{1b}[37m/-----\u{1b}[34mooooooosyyyyyyyo+oooss\n   .o++++ssooooos\u{1b}[37m/------------\u{1b}[34msyyyyyyhsosssy-\n   ++++++ssooooss\u{1b}[37m/-----\u{1b}[34m+++++ooyyhhhhhdssssso\n  -s+++++syssssss\u{1b}[37m/-----\u{1b}[34myyhhhhhhhhhhhddssssy.\n  sooooooyhyyyyyh\u{1b}[37m/-----\u{1b}[34mhhhhhhhhhhhddddyssy+\n :yooooooyhyyyhhhyyyyyyhhhhhhhhhhdddddyssy`\n yoooooooyhyyhhhhhhhhhhhhhhhhhhhddddddysy/\n-ysooooooydhhhhhhhhhhhddddddddddddddddssy\n .-:/+osssyyyysyyyyyyyyyyyyyyyyyyyyyyssy:\n       ``.-/+oosysssssssssssssssssssssss\n               ``.:/+osyysssssssssssssh.\n                        `-:/+osyyssssyo\n                                .-:+++`"@,
        Distro::Funtoo => "\u{1b}[35m   .dKXXd                         .\n  :XXl;:.                      .OXo\n.'OXO''  .''''''''''''''''''''':XNd..'oco.lco,\nxXXXXXX, cXXXNNNXXXXNNXXXXXXXXNNNNKOOK; d0O .k\n  kXX  xXo  KNNN0  KNN.       'xXNo   :c; 'cc.\n  kXX  xNo  KNNN0  KNN. :xxxx. 'NNo\n  kXX  xNo  loooc  KNN. oNNNN. 'NNo\n  kXX  xN0:.       KNN' oNNNX' ,XNk\n  kXX  xNNXNNNNNNNNXNNNNNNNNXNNOxXNX0Xl\n  ...  ......................... .;cc;."@,
        Distro::GalliumOs => "\u{1b}[34msooooooooooooooooooooooooooooooooooooo+:\nyyooooooooooooooooooooooooooooooooo+/:::\nyyysoooooooooooooooooooooooooooo+/::::::\nyyyyyoooooooooooooooooooooooo+/:::::::::\nyyyyyysoooooooooooooooooo++/::::::::::::\nyyyyyyysoooooooooooooo++/:::::::::::::::\nyyyyyyyyysoooooo\u{1b}[37msydddys\u{1b}[34m+/:::::::::::::::\nyyyyyyyyyysooo\u{1b}[37msmMMMMMMMNd\u{1b}[34m+::::::::::::::\nyyyyyyyyyyyyo\u{1b}[37msMMMMMMMMMMMN\u{1b}[34m/:::::::::::::\nyyyyyyyyyyyyy\u{1b}[37mdMMMMMMMMMMMM\u{1b}[34mo//:::::::::::\nyyyyyyyyyyyyy\u{1b}[37mhMMMMMMMMMMMm\u{1b}[34m--//::::::::::\nyyyyyyyyyyyyyy\u{1b}[37mhmMMMMMMMNy\u{1b}[34m:..-://::::::::\nyyyyyyyyyyyyyyy\u{1b}[37myyhhyys+:\u{1b}[34m......://:::::::\nyyyyyyyyyyyyyyys+:--...........-///:::::\nyyyyyyyyyyyys+:--................://::::\nyyyyyyyyyo+:-.....................-//:::\nyyyyyyo+:-..........................://:\nyyyo+:-..............................-//\no/:-...................................:"@,
        Distro::Garuda => "\u{1b}[33m\n                     .%;888:8898898:\n                   x;XxXB%89b8:b8%b88:\n                .8Xxd                8X:.\n              .8Xx;                    8x:.\n            .tt8x          \u{1b}[34m.d\u{1b}[33m            x88;\n         .@8x8;          \u{1b}[34m.db:\u{1b}[33m              xx@;\n       \u{1b}[37m,tSXX°          .bbbbbbbbbbbbbbbbbbbB8x@;\n     .SXxx            bBBBBBBBBBBBBBBBBBBBbSBX8;\n   ,888S                                     pd!\n  8X88/                                       q\n  GBB.\n   \u{1b}[32mx%88        d888@8@X@X@X88X@@XX@@X@8@X.\n     dxXd    dB8b8b8B8B08bB88b998888b88x.\n      dxx8o                      .@@;.\n        dx88                   .t@x.\n          d:SS@8ba89aa67a853Sxxad.\n            .d988999889889899dd."@,
        Distro::GentooSmall => "\u{1b}[35m _-----_\n(       \\\\\n\\    0   \\\\\n\u{1b}[37m \\        )\n /      _/\n(     _-\n\\____-"@,
        Distro::Gentoo => "\u{1b}[35m         -/oyddmdhs+:.\n     -o\u{1b}[37mdNMMMMMMMMNNmhy+\u{1b}[35m-`\n   -y\u{1b}[37mNMMMMMMMMMMMNNNmmdhy\u{1b}[35m+-\n `o\u{1b}[37mmMMMMMMMMMMMMNmdmmmmddhhy\u{1b}[35m/`\n om\u{1b}[37mMMMMMMMMMMMN\u{1b}[35mhhyyyo\u{1b}[37mhmdddhhhd\u{1b}[35mo`\n.y\u{1b}[37mdMMMMMMMMMMd\u{1b}[35mhs++so/s\u{1b}[37mmdddhhhhdm\u{1b}[35m+`\n oy\u{1b}[37mhdmNMMMMMMMN\u{1b}[35mdyooy\u{1b}[37mdmddddhhhhyhN\u{1b}[35md.\n  :o\u{1b}[37myhhdNNMMMMMMMNNNmmdddhhhhhyym\u{1b}[35mMh\n    .:\u{1b}[37m+sydNMMMMMNNNmmmdddhhhhhhmM\u{1b}[35mmy\n       /m\u{1b}[37mMMMMMMNNNmmmdddhhhhhmMNh\u{1b}[35ms:\n    `o\u{1b}[37mNMMMMMMMNNNmmmddddhhdmMNhs\u{1b}[35m+`\n  `s\u{1b}[37mNMMMMMMMMNNNmmmdddddmNMmhs\u{1b}[35m/.\n /N\u{1b}[37mMMMMMMMMNNNNmmmdddmNMNdso\u{1b}[35m:`\n+M\u{1b}[37mMMMMMMNNNNNmmmmdmNMNdso\u{1b}[35m/-\nyM\u{1b}[37mMNNNNNNNmmmmmNNMmhs+/\u{1b}[35m-`\n/h\u{1b}[37mMMNNNNNNNNMNdhs++/\u{1b}[35m-`\n`/\u{1b}[37mohdmmddhys+++/:\u{1b}[35m.`\n  `-//////:--."@,
        Distro::Pentoo => "\u{1b}[37m           `:oydNNMMMMNNdyo:`\n        :yNMMMMMMMMMMMMMMMMNy:\n      :dMMMMMMMMMMMMMMMMMMMMMMd:\n     oMMMMMMMho/-....-/ohMMMMMMMo\n    oMMMMMMy.            .yMMMMMMo\n   .MMMMMMo                oMMMMMM.\n   +MMMMMm                  mMMMMM+\n   oMMMMMh                  hMMMMMo\n //hMMMMMm//\u{1b}[35m`\u{1b}[37m          \u{1b}[35m`\u{1b}[37m////mMMMMMh//\nMMMMMMMMMMM\u{1b}[35m/\u{1b}[37m      \u{1b}[35m/o/`\u{1b}[37m  \u{1b}[35m.\u{1b}[37msmMMMMMMMMMMM\nMMMMMMMMMMm      \u{1b}[35m`NMN:\u{1b}[37m    \u{1b}[35m.\u{1b}[37myMMMMMMMMMM\nMMMMMMMMMMMh\u{1b}[35m:.\u{1b}[37m              dMMMMMMMMM\nMMMMMMMMMMMMMy\u{1b}[35m.\u{1b}[37m            \u{1b}[35m-\u{1b}[37mNMMMMMMMMM\nMMMMMMMMMMMd:\u{1b}[35m`\u{1b}[37m           \u{1b}[35m-\u{1b}[37myNMMMMMMMMMM\nMMMMMMMMMMh\u{1b}[35m`\u{1b}[37m          \u{1b}[35m./\u{1b}[37mhNMMMMMMMMMMMM\nMMMMMMMMMM\u{1b}[35ms\u{1b}[37m        \u{1b}[35m.:\u{1b}[37mymMMMMMMMMMMMMMMM\nMMMMMMMMMMN\u{1b}[35ms:..-/\u{1b}[37mohNMMMMMMMMMMMMMMMMMM\nMMMMMMMMMMMMMMMMMMMMMMMMMMMMMMMMMMMMMM\nMMMMMMMMMMMMMMMMMMMMMMMMMMMMMMMMMMMMMM\n MMMMMMMMMMMMMMMMMMMMMMMMMMMMMMMMMMMM"@,
        Distro::Glaucus => "\u{1b}[35m             ,,        ,d88P\n           ,d8P    ,ad8888*\n         ,888P    d88888*     ,,ad8888P*\n    d   d888P   a88888P*  ,ad8888888*\n  .d8  d8888:  d888888* ,d888888P*\n .888; 88888b d8888888b8888888P\n d8888J888888a88888888888888P*    ,d\n 88888888888888888888888888P   ,,d8*\n 888888888888888888888888888888888*\n *8888888888888888888888888888888*\n  Y888888888P* `*``*888888888888*\n   *^888^*            *Y888P**"@,
        Distro::GNewSense => "\u{1b}[34m                     ..,,,,..\n               .oocchhhhhhhhhhccoo.\n        .ochhlllllllc hhhhhh ollllllhhco.\n    ochlllllllllll hhhllllllhhh lllllllllllhco\n .cllllllllllllll hlllllo  +hllh llllllllllllllc.\nollllllllllhco''  hlllllo  +hllh  ``ochllllllllllo\nhllllllllc'       hllllllllllllh       `cllllllllh\nollllllh          +llllllllllll+          hllllllo\n `cllllh.           ohllllllho           .hllllc'\n    ochllc.            ++++            .cllhco\n       `+occooo+.                .+ooocco+'\n              `+oo++++      ++++oo+'"@,
        Distro::Gnome => "\u{1b}[34m                               ,@@@@@@@@,\n                 @@@@@@      @@@@@@@@@@@@\n        ,@@.    @@@@@@@    *@@@@@@@@@@@@\n       @@@@@%   @@@@@@(    @@@@@@@@@@@&\n       @@@@@@    @@@@*     @@@@@@@@@#\n@@@@*   @@@@,              *@@@@@%\n@@@@@.\n @@@@#         @@@@@@@@@@@@@@@@\n         ,@@@@@@@@@@@@@@@@@@@@@@@,\n      ,@@@@@@@@@@@@@@@@@@@@@@@@@@&\n    .@@@@@@@@@@@@@@@@@@@@@@@@@@@@\n    @@@@@@@@@@@@@@@@@@@@@@@@@@@\n   @@@@@@@@@@@@@@@@@@@@@@@@(\n   @@@@@@@@@@@@@@@@@@@@%\n    @@@@@@@@@@@@@@@@\n     @@@@@@@@@@@@*        @@@@@@@@/\n      &@@@@@@@@@@        @@@@@@@@@*\n        @@@@@@@@@@@,    @@@@@@@@@*\n          ,@@@@@@@@@@@@@@@@@@@@&\n              &@@@@@@@@@@@@@@\n                     ..."@,
        Distro::Gnu => "\u{1b}[37m    _-`````-,           ,- '- .\n  .'   .- - |          | - -.  `.\n /.'  /                     `.   \\\n:/   :      _...   ..._      ``   :\n::   :     /._ .`:'_.._\\.    ||   :\n::    `._ ./  ,`  :    \\ . _.''   .\n`:.      /   |  -.  \\-. \\\\_      /\n  \\:._ _/  .'   .@)  \\@) ` `\\ ,.'\n     _/,--'       .- .\\,-.`--`.\n       ,'/''     (( \\ `  )\n        /'/'  \\    `-'  (\n         '/''  `._,-----'\n          ''/'    .,---'\n           ''/'      ;:\n             ''/''  ''/\n               ''/''/''\n                 '/'/'\n                  `;"@,
        Distro::GoboLinux => "\u{1b}[35m  _____       _\n / ____|     | |\n| |  __  ___ | |__   ___\n| | |_ |/ _ \\| '_ \\ / _ \\\n| |__| | (_) | |_) | (_) |\n \\_____|\\___/|_.__/ \\___/"@,
        Distro::Grombyang => "\u{1b}[34m            eeeeeeeeeeee\n         eeeeeeeeeeeeeeeee\n      eeeeeeeeeeeeeeeeeeeeeee\n    eeeee       \u{1b}[32m.o+       \u{1b}[34meeee\n  eeee         \u{1b}[32m`ooo/         \u{1b}[34meeee\n eeee         \u{1b}[32m`+oooo:         \u{1b}[34meeee\neee          \u{1b}[32m`+oooooo:          \u{1b}[34meee\neee          \u{1b}[32m-+oooooo+:         \u{1b}[34meee\nee         \u{1b}[32m`/:oooooooo+:         \u{1b}[34mee\nee        \u{1b}[32m`/+   +++    +:        \u{1b}[34mee\nee              \u{1b}[32m+o+\\             \u{1b}[34mee\neee             \u{1b}[32m+o+\\            \u{1b}[34meee\neee        \u{1b}[32m//  \\\\ooo/  \\\\\\        \u{1b}[34meee\n eee      \u{1b}[32m//++++oooo++++\\\\\\     \u{1b}[34meee\n  eeee    \u{1b}[32m::::++oooo+:::::   \u{1b}[34meeee\n    eeeee   \u{1b}[31mGrombyang OS \u{1b}[34m  eeee\n      eeeeeeeeeeeeeeeeeeeeeee\n         eeeeeeeeeeeeeeeee"@,
        Distro::GuixSmall => "\u{1b}[33m|.__          __.|\n|__ \\\\        / __|\n   \\\\ \\\\      / /\n    \\\\ \\\\    / /\n     \\\\ \\\\  / /\n      \\\\ \\\\/ /\n       \\\\__/"@,
        Distro::Guix => "\u{1b}[33m ..                             `.\n `--..```..`           `..```..--`\n   .-:///-:::.       `-:::///:-.\n      ````.:::`     `:::.````\n           -//:`    -::-\n            ://:   -::-\n            `///- .:::`\n             -+++-:::.\n              :+/:::-\n              `-....`"@,
        Distro::HaikuSmall => "\u{1b}[32m       ,^,\n      /   \\\\\n*--_ ;     ; _--*\n\\\\   '\"     \"'   /\n '.           .'\n.-'\"         \"'-.\n '-.__.   .__.-'\n       |_|"@,
        Distro::Haiku => "\u{1b}[37m\n\n           MMMM              MMMM\n           MMMM              MMMM\n           MMMM              MMMM\n           MMMM              MMMM\n           MMMM\u{1b}[32m       .ciO| /YMMMMM*\"\n\u{1b}[37m           MMMM\u{1b}[32m   .cOMMMMM|/MMMMM/`\n ,         ,iMM|/MMMMMMMMMMMMMMM*\n  `*.__,-cMMMMMMMMMMMMMMMMM/`\u{1b}[37m.MMM\n           MM\u{1b}[32mMMMMMMM/`:MMM/  \u{1b}[37mMMMM\n           MMMM              MMMM\n           MMMM              MMMM\n           \"\"\"\"              \"\"\"\""@,
        Distro::Huayra => "\u{1b}[37m                     `\n            .       .       `\n       ``    -      .      .\n        `.`   -` `. -  `` .`\n          ..`-`-` + -  / .`     ```\n          .--.+--`+:- :/.` .-``.`\n            -+/so::h:.d-`./:`.`\n              :hNhyMomy:os-...-.  ````\n               .dhsshNmNhoo+:-``.```\n                \u{1b}[34m`ohy:-\u{1b}[37mNMds+::-.``\n            ````\u{1b}[34m.hNN+`\u{1b}[37mmMNho/:-....````\n       `````     `../dmNhoo+/:..``\n    ````            .dh++o/:....`\n.+s/`                `/s-.-.:.`` ````\n::`                    `::`..`\n                          .` `..\n                                ``"@,
        Distro::HydroOs => "\u{1b}[31m\n  _    _           _            ____   _____\n | |  | |         | |          / __ \\ / ____|\n | |__| |_   _  __| |_ __ ___ | |  | | (___\n |  __  | | | |/ _` | '__/ _ \\| |  | |\\___ \\\n | |  | | |_| | (_| | | | (_) | |__| |____) |\n |_|  |_|\\__, |\\__,_|_|  \\___/ \\____/|_____/\n          __/ |\n         |___/"@,
        Distro::HyperbolaSmall => "\u{1b}[90m    |`__.`/\n    \\____/\n    .--.\n   /    \\\\\n  /  ___ \\\\\n / .`   `.\\\\\n/.`      `.\\\\"@,
        Distro::Hyperbola => "\u{1b}[90m                     WW\n                     KX              W\n                    WO0W          NX0O\n                    NOO0NW  WNXK0OOKW\n                    W0OOOOOOOOOOOOKN\n                     N0OOOOOOO0KXW\n                       WNXXXNW\n                 NXK00000KN\n             WNK0OOOOOOOOOO0W\n           NK0OOOOOOOOOOOOOO0W\n         X0OOOOOOO00KK00OOOOOK\n       X0OOOO0KNWW      WX0OO0W\n     X0OO0XNW              KOOW\n   N00KNW                   KOW\n NKXN                       W0W\nWW                           W"@,
        Distro::Iglunix => "\u{1b}[90m     |\n     |        |\n              |\n|    ________\n|  /\\   |    \\\n  /  \\  |     \\  |\n /    \\        \\ |\n/      \\________\\\n\\      /        /\n \\    /        /\n  \\  /        /\n   \\/________/"@,
        Distro::Januslinux => "\u{1b}[34m               'l:\n        loooooo\n          loooo coooool\n looooooooooooooooooool\n  looooooooooooooooo\n         lool   cooo\n        coooooooloooooooo\n     clooooo  ;lood  cloooo\n  :loooocooo cloo      loooo\n loooo  :ooooool       loooo\nlooo    cooooo        cooooo\nlooooooooooooo      ;loooooo \u{1b}[35mlooooooc\n\u{1b}[34mlooooooooo loo   cloooooool    \u{1b}[35mlooooc\n\u{1b}[34m cooo       cooooooooooo       \u{1b}[35mlooolooooool\n\u{1b}[34m            cooo:     \u{1b}[35mcoooooooooooooooooool\n                       loooooooooooolc:   loooc;\n                             cooo:    loooooooooooc\n                            ;oool         looooooo:\n                           coool          olc,\n                          looooc   ,,\n                        coooooc    loc\n                       :oooool,    coool:, looool:,\n                       looool:      ooooooooooooooo:\n                       cooolc        .ooooooooooool"@,
        Distro::Kaisen => "\u{1b}[31m                          `\n                  `:+oyyho.\n             `+:`sdddddd/\n        `+` :ho oyo++ohds-`\n       .ho :dd.  .: `sddddddhhyso+/-\n       ody.ddd-:yd- +hysssyhddddddddho`\n       yddddddhddd` ` `--`   -+hddddddh.\n       hddy-+dddddy+ohh/..+sddddy/:::+ys\n      :ddd/sdddddddddd- oddddddd       `\n     `yddddddddddddddd/ /ddddddd/\n:.  :ydddddddddddddddddo..sddddddy/`\nodhdddddddo- `ddddh+-``....-+hdddddds.\n-ddddddhd:   /dddo  -ydddddddhdddddddd-\n /hdy:o - `:sddds   .`./hdddddddddddddo\n  `/-  `+hddyosy+       :dddddddy-.-od/\n      :sydds           -hddddddd`    /\n       .+shd-      `:ohddddddddd`\n                `:+ooooooooooooo:"@,
        Distro::Kali => "\u{1b}[34m..............\n            ..,;:ccc,.\n          ......''';lxO.\n.....''''..........,:ld;\n           .';;;:::;,,.x,\n      ..'''.            0Xxoc:,.  ...\n  ....                ,ONkc;,;cokOdc',.\n .                   OMo           ':\u{1b}[90mdd\u{1b}[34mo.\n                    dMc               :OO;\n                    0M.                 .:o.\n                    ;Wd\n                     ;XO,\n                       ,d0Odlc;,..\n                           ..',;:cdOOd::,.\n                                    .:d;.':;.\n                                       'd,  .'\n                                         ;l   ..\n                                          .o\n                                            c\n                                            .'\n                                             ."@,
        Distro::KaOs => "\u{1b}[34m                     ..\n  .....         ..OSSAAAAAAA..\n .KKKKSS.     .SSAAAAAAAAAAA.\n.KKKKKSO.    .SAAAAAAAAAA...\nKKKKKKS.   .OAAAAAAAA.\nKKKKKKS.  .OAAAAAA.\nKKKKKKS. .SSAA..\n.KKKKKS..OAAAAAAAAAAAA........\n DKKKKO.=AA=========A===AASSSO..\n  AKKKS.==========AASSSSAAAAAASS.\n  .=KKO..========ASS.....SSSSASSSS.\n    .KK.       .ASS..O.. =SSSSAOSS:\n     .OK.      .ASSSSSSSO...=A.SSA.\n       .K      ..SSSASSSS.. ..SSA.\n                 .SSS.AAKAKSSKA.\n                    .SSS....S.."@,
        Distro::Kde => "\u{1b}[32m             `..---+/---..`\n         `---.``   ``   `.---.`\n      .--.`        ``        `-:-.\n    `:/:     `.----//----.`     :/-\n   .:.    `---`          `--.`    .:`\n  .:`   `--`                .:-    `:.\n `/    `:.      `.-::-.`      -:`   `/`\n /.    /.     `:++++++++:`     .:    .:\n`/    .:     `+++++++++++/      /`   `+`\n/+`   --     .++++++++++++`     :.   .+:\n`/    .:     `+++++++++++/      /`   `+`\n /`    /.     `:++++++++:`     .:    .:\n ./    `:.      `.:::-.`      -:`   `/`\n  .:`   `--`                .:-    `:.\n   .:.    `---`          `--.`    .:`\n    `:/:     `.----//----.`     :/-\n      .-:.`        ``        `-:-.\n         `---.``   ``   `.---.`\n             `..---+/---..`"@,
        Distro::Kibojoe => "\u{1b}[34m           ./+oooooo+/.\n           -/+ooooo+/:.`\n          \u{1b}[32m`\u{1b}[34myyyo\u{1b}[37m+++/++\u{1b}[34mosss\u{1b}[32m.\n         \u{1b}[32m+NMN\u{1b}[34myssssssssssss\u{1b}[32m.\n       \u{1b}[32m.dMMMMN\u{1b}[34msssssssssssy\u{1b}[32mNs`\n      +MMMMMMMm\u{1b}[34msssssssssssh\u{1b}[32mMNo`\n    `hMMMMMNNNMd\u{1b}[34msssssssssssd\u{1b}[32mMMN/\n   .\u{1b}[34msyyyssssssy\u{1b}[32mNNmmmmd\u{1b}[34msssss\u{1b}[32mhMMMMd:\n  -NMmh\u{1b}[34myssssssssyhhhhyssyh\u{1b}[32mmMMMMMMMy`\n -NMMMMMNN\u{1b}[34mmdhyyyyyyyhdm\u{1b}[32mNMMMMMMMMMMMN+\n`NMMMMMMMMMMMMMMMMMMMMMMMMMMMMMMMMMMMd.\nods+/:-----://+oyydmNMMMMMMMMMMMMMMMMMN-\n`                     .-:+osyhhdmmNNNmdo"@,
        Distro::Kogaion => "\u{1b}[34m            ;;      ,;\n           ;;;     ,;;\n         ,;;;;     ;;;;\n      ,;;;;;;;;    ;;;;\n     ;;;;;;;;;;;   ;;;;;\n    ,;;;;;;;;;;;;  ';;;;;,\n    ;;;;;;;;;;;;;;, ';;;;;;;\n    ;;;;;;;;;;;;;;;;;, ';;;;;\n;    ';;;;;;;;;;;;;;;;;;, ;;;\n;;;,  ';;;;;;;;;;;;;;;;;;;,;;\n;;;;;,  ';;;;;;;;;;;;;;;;;;,\n;;;;;;;;,  ';;;;;;;;;;;;;;;;,\n;;;;;;;;;;;;, ';;;;;;;;;;;;;;\n';;;;;;;;;;;;; ';;;;;;;;;;;;;\n ';;;;;;;;;;;;;, ';;;;;;;;;;;\n  ';;;;;;;;;;;;;  ;;;;;;;;;;\n    ';;;;;;;;;;;; ;;;;;;;;\n        ';;;;;;;; ;;;;;;\n           ';;;;; ;;;;\n             ';;; ;;"@,
        Distro::Korora => "\u{1b}[37m                ____________\n             _add55555555554\u{1b}[34m:\n           _w?'\u{1b}[34m``````````'\u{1b}[37m)k\u{1b}[34m:\n          _Z'\u{1b}[34m`\u{1b}[37m            ]k\u{1b}[34m:\n          m(\u{1b}[34m`\u{1b}[37m             )k\u{1b}[34m:\n     _.ss\u{1b}[34m`\u{1b}[37mm[\u{1b}[34m`\u{1b}[37m,            ]e\u{1b}[34m:\n   .uY\"^`\u{1b}[34m`\u{1b}[37mXc\u{1b}[34m`\u{1b}[37m?Ss.         d(\u{1b}[34m`\n  jF'\u{1b}[34m`\u{1b}[37m    `@.  \u{1b}[34m`\u{1b}[37mSc      .jr\u{1b}[34m`\n jr\u{1b}[34m`\u{1b}[37m       `?n_ \u{1b}[34m`\u{1b}[37m$;   _a2\"\u{1b}[34m`\n.m\u{1b}[34m:\u{1b}[37m          `~M\u{1b}[34m`\u{1b}[37m1k\u{1b}[34m`\u{1b}[37m5?!`\u{1b}[34m`\n:#\u{1b}[34m:\u{1b}[37m             \u{1b}[34m`\u{1b}[37m)e\u{1b}[34m```\n:m\u{1b}[34m:\u{1b}[37m             ,#'\u{1b}[34m`\n:#\u{1b}[34m:\u{1b}[37m           .s2'\u{1b}[34m`\n:m,________.aa7^\u{1b}[34m`\n:#baaaaaaas!J'\u{1b}[34m`\n ```````````"@,
        Distro::KsLinux => "\u{1b}[34m K   K U   U RRRR   ooo\n K  K  U   U R   R o   o\n KKK   U   U RRRR  o   o\n K  K  U   U R  R  o   o\n K   K  UUU  R   R  ooo\n\n\u{1b}[37m  SSS   AAA  W   W  AAA\n S     A   A W   W A   A\n  SSS  AAAAA W W W AAAAA\n     S A   A WW WW A   A\n  SSS  A   A W   W A   A"@,
        Distro::Kubuntu => "\u{1b}[34m           `.:/ossyyyysso/:.\n        .:oyyyyyyyyyyyyyyyyyyo:`\n      -oyyyyyyyo\u{1b}[37mdMMy\u{1b}[34myyyyyyysyyyyo-\n    -syyyyyyyyyy\u{1b}[37mdMMy\u{1b}[34moyyyy\u{1b}[37mdmMMy\u{1b}[34myyyys-\n   oyyys\u{1b}[37mdMy\u{1b}[34msyyyy\u{1b}[37mdMMMMMMMMMMMMMy\u{1b}[34myyyyyyo\n `oyyyy\u{1b}[37mdMMMMy\u{1b}[34msyysoooooo\u{1b}[37mdMMMMy\u{1b}[34myyyyyyyyo`\n oyyyyyy\u{1b}[37mdMMMMy\u{1b}[34myyyyyyyyyyys\u{1b}[37mdMMy\u{1b}[34msssssyyyo\n-yyyyyyyy\u{1b}[37mdMy\u{1b}[34msyyyyyyyyyyyyyys\u{1b}[37mdMMMMMy\u{1b}[34msyyy-\noyyyysoo\u{1b}[37mdMy\u{1b}[34myyyyyyyyyyyyyyyyyy\u{1b}[37mdMMMMy\u{1b}[34msyyyo\nyyys\u{1b}[37mdMMMMMy\u{1b}[34myyyyyyyyyyyyyyyyyysosyyyyyyyy\nyyys\u{1b}[37mdMMMMMy\u{1b}[34myyyyyyyyyyyyyyyyyyyyyyyyyyyyy\noyyyyysos\u{1b}[37mdy\u{1b}[34myyyyyyyyyyyyyyyyyy\u{1b}[37mdMMMMy\u{1b}[34msyyyo\n-yyyyyyyy\u{1b}[37mdMy\u{1b}[34msyyyyyyyyyyyyyys\u{1b}[37mdMMMMMy\u{1b}[34msyyy-\n oyyyyyy\u{1b}[37mdMMMy\u{1b}[34msyyyyyyyyyyys\u{1b}[37mdMMy\u{1b}[34moyyyoyyyo\n `oyyyy\u{1b}[37mdMMMy\u{1b}[34msyyyoooooo\u{1b}[37mdMMMMy\u{1b}[34moyyyyyyyyo\n   oyyysyyoyyyys\u{1b}[37mdMMMMMMMMMMMy\u{1b}[34myyyyyyyo\n    -syyyyyyyyy\u{1b}[37mdMMMy\u{1b}[34msyyy\u{1b}[37mdMMMy\u{1b}[34msyyyys-\n      -oyyyyyyy\u{1b}[37mdMMy\u{1b}[34myyyyyysosyyyyo-\n        ./oyyyyyyyyyyyyyyyyyyo/.\n           `.:/oosyyyysso/:.`"@,
        Distro::Lede => "\u{1b}[34m _________\n    /        /\\\n   /  LE    /  \\\n  /    DE  /    \\\n /________/  LE  \\\n \\        \\   DE /\n  \\    LE  \\    /\n   \\  DE    \\  /\n    \\________\\/"@,
        Distro::LaxerOs => "\u{1b}[34m\n                    /.\n                 `://:-\n                `//////:\n               .////////:`\n              -//////////:`\n             -/////////////`\n            :///////////////.\n          `://////.```-//////-\n         `://///:`     .//////-\n        `//////:        `//////:\n       .//////-          `://///:`\n      -//////-            `://///:`\n     -//////.               ://////`\n    ://////`                 -//////.\n   `/////:`                   ./////:\n    .-::-`                     .:::-`\n\n.:://////////////////////////////////::.\n////////////////////////////////////////\n.:////////////////////////////////////:."@,
        Distro::LibreElec => "\u{1b}[32m          :+ooo/.      \u{1b}[33m./ooo+:\n\u{1b}[32m        :+ooooooo/.  \u{1b}[33m./ooooooo+:\n\u{1b}[32m      :+ooooooooooo:\u{1b}[33m:ooooooooooo+:\n\u{1b}[32m    :+ooooooooooo+-  \u{1b}[33m-+ooooooooooo+:\n\u{1b}[32m  :+ooooooooooo+-  \u{1b}[37m--  \u{1b}[33m-+ooooooooooo+:\n\u{1b}[32m.+ooooooooooo+-  \u{1b}[37m:+oo+:  \u{1b}[33m-+ooooooooooo+-\n\u{1b}[32m-+ooooooooo+-  \u{1b}[37m:+oooooo+:  \u{1b}[33m-+oooooooooo-\n\u{1b}[32m  :+ooooo+-  \u{1b}[37m:+oooooooooo+:  \u{1b}[33m-+oooooo:\n\u{1b}[32m    :+o+-  \u{1b}[37m:+oooooooooooooo+:  \u{1b}[33m-+oo:\n\u{1b}[96m     ./   \u{1b}[37m:oooooooooooooooooo:   \u{1b}[95m/.\n\u{1b}[96m   ./oo+:  \u{1b}[37m-+oooooooooooooo+-  \u{1b}[95m:+oo/.\n\u{1b}[96m ./oooooo+:  \u{1b}[37m-+oooooooooo+-  \u{1b}[95m:+oooooo/.\n\u{1b}[96m-oooooooooo+:  \u{1b}[37m-+oooooo+-  \u{1b}[95m:+oooooooooo-\n\u{1b}[96m.+ooooooooooo+:  \u{1b}[37m-+oo+-  \u{1b}[95m:+ooooooooooo+.\n\u{1b}[96m  -+ooooooooooo+:  \u{1b}[37m..  \u{1b}[95m:+ooooooooooo+-\n\u{1b}[96m    -+ooooooooooo+:  \u{1b}[95m:+ooooooooooo+-\n\u{1b}[96m      -+oooooooooo+:\u{1b}[95m:+oooooooooo+-\n\u{1b}[96m        -+oooooo+:    \u{1b}[95m:+oooooo+-\n\u{1b}[96m          -+oo+:        \u{1b}[95m:+oo+-\n\u{1b}[96m            ..            \u{1b}[95m.."@,
        Distro::Linux => "\u{1b}[90m        #####\n\u{1b}[90m       #######\n\u{1b}[90m       ##\u{1b}[37mO\u{1b}[90m#\u{1b}[37mO\u{1b}[90m##\n\u{1b}[90m       #\u{1b}[33m#####\u{1b}[90m#\n\u{1b}[90m     ##\u{1b}[37m##\u{1b}[33m###\u{1b}[37m##\u{1b}[90m##\n\u{1b}[90m    #\u{1b}[37m##########\u{1b}[90m##\n\u{1b}[90m   #\u{1b}[37m############\u{1b}[90m##\n\u{1b}[90m   #\u{1b}[37m############\u{1b}[90m###\n\u{1b}[33m  ##\u{1b}[90m#\u{1b}[37m###########\u{1b}[90m##\u{1b}[33m#\n\u{1b}[33m######\u{1b}[90m#\u{1b}[37m#######\u{1b}[90m#\u{1b}[33m######\n\u{1b}[33m#######\u{1b}[90m#\u{1b}[37m#####\u{1b}[90m#\u{1b}[33m#######\n\u{1b}[33m  #####\u{1b}[90m#######\u{1b}[33m#####"@,
        Distro::LinuxliteSmall => "\u{1b}[33m   /\\\\\n  /  \\\\\n / \u{1b}[37m/ \u{1b}[33m/\n> \u{1b}[37m/ \u{1b}[33m/\n\\\\ \u{1b}[37m\\\\ \u{1b}[33m\\\\\n \\\\_\u{1b}[37m\\\\\u{1b}[33m_\\\\\n\u{1b}[37m    \\\\"@,
        Distro::LinuxLite => "\u{1b}[33m          ,xXc\n      .l0MMMMMO\n   .kNMMMMMWMMMN,\n   KMMMMMMKMMMMMMo\n  'MMMMMMNKMMMMMM:\n  kMMMMMMOMMMMMMO\n .MMMMMMX0MMMMMW.\n oMMMMMMxWMMMMM:\n WMMMMMNkMMMMMO\n:MMMMMMOXMMMMW\n.0MMMMMxMMMMM;\n:;cKMMWxMMMMO\n'MMWMMXOMMMMl\n kMMMMKOMMMMMX:\n .WMMMMKOWMMM0c\n  lMMMMMWO0MNd:'\n   oollXMKXoxl;.\n     ':. .: .'\n              ..\n                ."@,
        Distro::Lmde => "\u{1b}[37m`.-::---..\n\u{1b}[32m      .:++++ooooosssoo:.\n    .+o++::.      `.:oos+.\n\u{1b}[32m   :oo:.`             -+oo\u{1b}[37m:\n\u{1b}[32m \u{1b}[37m`\u{1b}[32m+o/`    .\u{1b}[37m::::::\u{1b}[32m-.    .++-\u{1b}[37m`\n\u{1b}[32m\u{1b}[37m`\u{1b}[32m/s/    .yyyyyyyyyyo:   +o-\u{1b}[37m`\n\u{1b}[32m\u{1b}[37m`\u{1b}[32mso     .ss       ohyo` :s-\u{1b}[37m:\n\u{1b}[32m\u{1b}[37m`\u{1b}[32ms/     .ss  h  m  myy/ /s`\u{1b}[37m`\n\u{1b}[32m`s:     `oo  s  m  Myy+-o:`\n`oo      :+sdoohyoydyso/.\n :o.      .:////////++:\n\u{1b}[32m `/++        \u{1b}[37m-:::::-\n\u{1b}[32m  \u{1b}[37m`\u{1b}[32m++-\n\u{1b}[32m   \u{1b}[37m`\u{1b}[32m/+-\n\u{1b}[32m     \u{1b}[37m.\u{1b}[32m+/.\n\u{1b}[32m       \u{1b}[37m.\u{1b}[32m:+-.\n          `--.``"@,
        Distro::Lubuntu => "\u{1b}[34m           `.:/ossyyyysso/:.\n        `.:yyyyyyyyyyyyyyyyyy:.`\n      .:yyyyyyyyyyyyyyyyyyyyyyyy:.\n    .:yyyyyyyyyyyyyyyyyyyyyyyyyyyy:.\n   -yyyyyyyyyyyyyy\u{1b}[37m+hNMMMNh+\u{1b}[34myyyyyyyyy-\n  :yy\u{1b}[37mmNy+\u{1b}[34myyyyyyyy\u{1b}[37m+Nmso++smMdhyysoo+\u{1b}[34myy:\n -yy\u{1b}[37m+MMMmmy\u{1b}[34myyyyyy\u{1b}[37mhh\u{1b}[34myyyyyyyyyyyyyyyyyyy-\n.yyyy\u{1b}[37mNMN\u{1b}[34myy\u{1b}[37mshhs\u{1b}[34myyy\u{1b}[37m+o\u{1b}[34myyyyyyyyyyyyyyyyyyyy.\n:yyyy\u{1b}[37moNM+\u{1b}[34myyyy\u{1b}[37m+sso\u{1b}[34myyyyyyy\u{1b}[37mss\u{1b}[34myyyyyyyyyyyyy:\n:yyyyy\u{1b}[37m+dNs\u{1b}[34myyyyyyy\u{1b}[37m++\u{1b}[34myyyyy\u{1b}[37moN+\u{1b}[34myyyyyyyyyyyy:\n:yyyyy\u{1b}[37moMMmhysso\u{1b}[34myyyyyyyyyy\u{1b}[37mmN+\u{1b}[34myyyyyyyyyyy:\n:yyyyyy\u{1b}[37mhMm\u{1b}[34myyyyy\u{1b}[37m+++\u{1b}[34myyyyyyy\u{1b}[37m+MN\u{1b}[34myyyyyyyyyyy:\n.yyyyyyy\u{1b}[37mohmy+\u{1b}[34myyyyyyyyyyyyy\u{1b}[37mNMh\u{1b}[34myyyyyyyyyy.\n -yyyyyyyyyy\u{1b}[37m++\u{1b}[34myyyyyyyyyyyy\u{1b}[37mMMh\u{1b}[34myyyyyyyyy-\n  :yyyyyyyyyyyyyyyyyyyyy\u{1b}[37m+mMN+\u{1b}[34myyyyyyyy:\n   -yyyyyyyyyyyyyyyyy\u{1b}[37m+sdMMd+\u{1b}[34myyyyyyyy-\n    .:yyyyyyyyy\u{1b}[37mhmdmmNMNdy+\u{1b}[34myyyyyyyy:.\n      .:yyyyyyy\u{1b}[37mmy\u{1b}[34myyyyyyyyyyyyyyy:.\n        `.:yyyy\u{1b}[37ms\u{1b}[34myyyyyyyyyyyyy:.`\n           `.:/oosyyyysso/:.`"@,
        Distro::Lunar => "\u{1b}[34m`-.                                 `-.\n  -ohys/-`                    `:+shy/`\n     -omNNdyo/`          :+shmNNy/`\n             \u{1b}[33m      -\n                 /mMmo\n                 hMMMN`\n                 .NMMs\n    \u{1b}[34m  -:+oooo+//: \u{1b}[33m/MN\u{1b}[34m. -///oooo+/-`\n     /:.`          \u{1b}[33m/\u{1b}[34m           `.:/`\n\u{1b}[33m          __\n         |  |   _ _ ___ ___ ___\n         |  |__| | |   | .'|  _|\n         |_____|___|_|_|__,|_|"@,
        Distro::Mac => "\u{1b}[32m       .:'\n    _ :'_\n\u{1b}[33m .'`_`-'_``.\n:________.-'\n\u{1b}[31m:_______:\n:_______:\n\u{1b}[35m :_______`-;\n\u{1b}[34m  `._.-._.'"@,
        Distro::MageiaSmall => "\u{1b}[36m   *\n    *\n   **\n\u{1b}[37m /\\\\__/\\\\\n/      \\\\\n\\\\      /\n \\\\____/"@,
        Distro::Mageia => "\u{1b}[36m        .°°.\n         °°   .°°.\n         .°°°. °°\n         .   .\n          °°° .°°°.\n      .°°°.   '___'\n\u{1b}[37m     .\u{1b}[36m'___'     \u{1b}[37m   .\n   :dkxc;'.  ..,cxkd;\n .dkk. kkkkkkkkkk .kkd.\n.dkk.  ';cloolc;.  .kkd\nckk.                .kk;\nxO:                  cOd\nxO:                  lOd\nlOO.                .OO:\n.k00.              .00x\n .k00;            ;00O.\n  .lO0Kc;,,,,,,;c0KOc.\n     ;d00KKKKKK00d;\n        .,KKKK,."@,
        Distro::MagpieOs => "\u{1b}[32m        ;00000     :000Ol\n     .x00kk00:    O0kk00k;\n    l00:   :00.  o0k   :O0k.\n  .k0k.     x\u{1b}[31md$dddd\u{1b}[32mk'    .d00;\n  k0k.      \u{1b}[31m.dddddl       \u{1b}[32mo00,\n o00.        \u{1b}[31m':cc:.        \u{1b}[32md0O\n.00l                       ,00.\nl00.                       d0x\nk0O                     .:k0o\nO0k                 ;dO0000d.\nk0O               .O0O\u{1b}[31mxxxxk\u{1b}[32m00:\no00.              k0O\u{1b}[31mdddddd\u{1b}[32mocc\n'00l              x0O\u{1b}[31mdddddo\u{1b}[33m;..\u{1b}[32m\n x00.             .x00\u{1b}[31mkxxd\u{1b}[33m:..\u{1b}[32m\n .O0x               .:oxxx\u{1b}[35mOkl.\u{1b}[32m\n  .x0d                     \u{1b}[35m,xx,\u{1b}[32m\n    .:o.          \u{1b}[35m.xd       ckd\u{1b}[32m\n       ..          \u{1b}[35mdxl     .xx;\n                    :xxolldxd'\n                      ;oxdl."@,
        Distro::Mandriva => "\u{1b}[33m                        ``\n                       `-.\n\u{1b}[34m      `               \u{1b}[33m.---\n\u{1b}[34m    -/               \u{1b}[33m-::--`\n\u{1b}[34m  `++    \u{1b}[33m`----...```-:::::.\n\u{1b}[34m `os.      \u{1b}[33m.::::::::::::::-```     `  `\n\u{1b}[34m +s+         \u{1b}[33m.::::::::::::::::---...--`\n\u{1b}[34m-ss:          \u{1b}[33m`-::::::::::::::::-.``.``\n\u{1b}[34m/ss-           \u{1b}[33m.::::::::::::-.``   `\n\u{1b}[34m+ss:          \u{1b}[33m.::::::::::::-\n\u{1b}[34m/sso         \u{1b}[33m.::::::-::::::-\n\u{1b}[34m.sss/       \u{1b}[33m-:::-.`   .:::::\n\u{1b}[34m /sss+.    \u{1b}[33m..`\u{1b}[34m  `--`    \u{1b}[33m.:::\n\u{1b}[34m  -ossso+/:://+/-`        \u{1b}[33m.:`\n\u{1b}[34m    -/+ooo+/-.              \u{1b}[33m`"@,
        Distro::ManjaroSmall => "\u{1b}[32m||||||||| ||||\n||||||||| ||||\n||||      ||||\n|||| |||| ||||\n|||| |||| ||||\n|||| |||| ||||\n|||| |||| ||||"@,
        Distro::Manjaro => "\u{1b}[32m██████████████████  ████████\n██████████████████  ████████\n██████████████████  ████████\n██████████████████  ████████\n████████            ████████\n████████  ████████  ████████\n████████  ████████  ████████\n████████  ████████  ████████\n████████  ████████  ████████\n████████  ████████  ████████\n████████  ████████  ████████\n████████  ████████  ████████\n████████  ████████  ████████\n████████  ████████  ████████"@,
        Distro::Maui => "\u{1b}[36m             `.-://////:--`\n         .:/oooooooooooooooo+:.\n      `:+ooooooooooooooooooooooo:`\n    `:oooooooooooooooooooooooooooo/`\n    ..```-oooooo/-`` `:oooooo+:.` `--\n  :.      +oo+-`       /ooo/`       -/\n -o.     `o+-          +o/`         -o:\n`oo`     ::`  :o/     `+.  .+o`     /oo.\n/o+      .  -+oo-     `   /oo/     `ooo/\n+o-        /ooo+`       .+ooo.     :ooo+\n++       .+oooo:       -oooo+     `oooo+\n:.      .oooooo`      :ooooo-     :oooo:\n`      .oooooo:      :ooooo+     `ooo+-`\n      .+oooooo`     -oooooo:     `o/-\n      +oooooo:     .ooooooo.\n     /ooooooo`     /ooooooo/       ..\n    `:oooooooo/:::/ooooooooo+:--:/:`\n      `:+oooooooooooooooooooooo+:`\n         .:+oooooooooooooooo+:.\n             `.-://////:-.`"@,
        Distro::Mer => "\u{1b}[34m                         dMs\n                         .-`\n                       `y`-o+`\n                        ``NMMy\n                      .--`:++.\n                    .hNNNNs\n                    /MMMMMN\n                    `ommmd/ +/\n                      ````  +/\n                     `:+sssso/-`\n  .-::. `-::-`     `smNMNmdmNMNd/      .://-`\n.ymNMNNdmNMMNm+`  -dMMh:.....+dMMs   `sNNMMNo\ndMN+::NMMy::hMM+  mMMo `ohhy/ `dMM+  yMMy::-\nMMm   yMM-  :MMs  NMN` `:::::--sMMh  dMM`\nMMm   yMM-  -MMs  mMM+ `ymmdsymMMMs  dMM`\nNNd   sNN-  -NNs  -mMNs-.--..:dMMh`  dNN\n---   .--`  `--.   .smMMmdddmMNdo`   .--\n                     ./ohddds+:`\n                     +h- `.:-.\n                     ./`.dMMMN+\n                        +MMMMMd\n                        `+dmmy-\n                      ``` .+`\n                     .dMNo-y.\n                     `hmm/\n                         .:`\n                         dMs"@,
        Distro::Minix => "\u{1b}[37m   -sdhyo+:-`                -/syymm:\n   sdyooymmNNy.     ``    .smNmmdysNd\n   odyoso+syNNmysoyhhdhsoomNmm+/osdm/\n    :hhy+-/syNNmddhddddddmNMNo:sdNd:\n     `smNNdNmmNmddddddddddmmmmmmmy`\n   `ohhhhdddddmmNNdmddNmNNmdddddmdh-\n   odNNNmdyo/:/-/hNddNy-`..-+ydNNNmd:\n `+mNho:`   smmd/ sNNh :dmms`   -+ymmo.\n-od/       -m\u{1b}[31mmm\u{1b}[37mmo -NN+ +m\u{1b}[31mmm\u{1b}[37mm-       yms:\n+sms -.`    :so:  .NN+  :os/     .-`mNh:\n.-hyh+:////-     -sNNd:`    .--://ohNs-\n `:hNNNNNNNMMd/sNMmhsdMMh/ymmNNNmmNNy/\n  -+sNNNNMMNNNsmNMo: :NNmymNNNNMMMms:\n    //oydNMMMMydMMNysNMMmsMMMMMNyo/`\n       ../-yNMMy--/::/-.sMMmos+.`\n           -+oyhNsooo+omy/```\n              `::ohdmds-`"@,
        Distro::LinuxmintSmall => "\u{1b}[32m ___________\n|_          \\\\\n  | \u{1b}[37m| _____ \u{1b}[32m|\n  | \u{1b}[37m| | | | \u{1b}[32m|\n  | \u{1b}[37m| | | | \u{1b}[32m|\n  | \u{1b}[37m\\\\__\u{1b}[37m___/ \u{1b}[32m|\n  \\\\_________/"@,
        Distro::LinuxMintOld => "\u{1b}[32mMMMMMMMMMMMMMMMMMMMMMMMMMmds+.\nMMm----::-://////////////oymNMd+`\nMMd      \u{1b}[37m/++                \u{1b}[32m-sNMd:\nMMNso/`  \u{1b}[37mdMM    `.::-. .-::.` \u{1b}[32m.hMN:\nddddMMh  \u{1b}[37mdMM   :hNMNMNhNMNMNh: \u{1b}[32m`NMm\n    NMm  \u{1b}[37mdMM  .NMN/-+MMM+-/NMN` \u{1b}[32mdMM\n    NMm  \u{1b}[37mdMM  -MMm  `MMM   dMM. \u{1b}[32mdMM\n    NMm  \u{1b}[37mdMM  -MMm  `MMM   dMM. \u{1b}[32mdMM\n    NMm  \u{1b}[37mdMM  .mmd  `mmm   yMM. \u{1b}[32mdMM\n    NMm  \u{1b}[37mdMM`  ..`   ...   ydm. \u{1b}[32mdMM\n    hMM- \u{1b}[37m+MMd/-------...-:sdds  \u{1b}[32mdMM\n    -NMm- \u{1b}[37m:hNMNNNmdddddddddy/`  \u{1b}[32mdMM\n     -dMNs-\u{1b}[37m``-::::-------.``    \u{1b}[32mdMM\n      `/dMNmy+/:-------------:/yMMM\n         ./ydNMMMMMMMMMMMMMMMMMMMMM\n            .MMMMMMMMMMMMMMMMMMM"@,
        Distro::LinuxMint => "\u{1b}[37m             ...-:::::-...\n\u{1b}[37m          .-MMMMMMMMMMMMMMM-.\n      .-MMMM\u{1b}[32m`..-:::::::-..`\u{1b}[37mMMMM-.\n    .:MMMM\u{1b}[32m.:MMMMMMMMMMMMMMM:.\u{1b}[37mMMMM:.\n   -MMM\u{1b}[32m-M---MMMMMMMMMMMMMMMMMMM.\u{1b}[37mMMM-\n `:MMM\u{1b}[32m:MM`  :MMMM:....::-...-MMMM:\u{1b}[37mMMM:`\n :MMM\u{1b}[32m:MMM`  :MM:`  ``    ``  `:MMM:\u{1b}[37mMMM:\n.MMM\u{1b}[32m.MMMM`  :MM.  -MM.  .MM-  `MMMM.\u{1b}[37mMMM.\n:MMM\u{1b}[32m:MMMM`  :MM.  -MM-  .MM:  `MMMM-\u{1b}[37mMMM:\n:MMM\u{1b}[32m:MMMM`  :MM.  -MM-  .MM:  `MMMM:\u{1b}[37mMMM:\n:MMM\u{1b}[32m:MMMM`  :MM.  -MM-  .MM:  `MMMM-\u{1b}[37mMMM:\n.MMM\u{1b}[32m.MMMM`  :MM:--:MM:--:MM:  `MMMM.\u{1b}[37mMMM.\n :MMM\u{1b}[32m:MMM-  `-MMMMMMMMMMMM-`  -MMM-\u{1b}[37mMMM:\n  :MMM\u{1b}[32m:MMM:`                `:MMM:\u{1b}[37mMMM:\n   .MMM\u{1b}[32m.MMMM:--------------:MMMM.\u{1b}[37mMMM.\n     '-MMMM\u{1b}[32m.-MMMMMMMMMMMMMMM-.\u{1b}[37mMMMM-'\n       '.-MMMM\u{1b}[32m``--:::::--``\u{1b}[37mMMMM-.'\n\u{1b}[37m            '-MMMMMMMMMMMMM-'\n\u{1b}[37m               ``-:::::-``"@,
        Distro::LiveRaizo => "\u{1b}[33m             `......`\n        -+shmNMMMMMMNmhs/.\n     :smMMMMMmmhyyhmmMMMMMmo-\n   -hMMMMd+:. `----` .:odMMMMh-\n `hMMMN+. .odNMMMMMMNdo. .yMMMMs`\n hMMMd. -dMMMMmdhhdNMMMNh` .mMMMh\noMMMm` :MMMNs.:sddy:-sMMMN- `NMMM+\nmMMMs  dMMMo sMMMMMMd yMMMd  sMMMm\n----`  .---` oNMMMMMh `---.  .----\n              .sMMy:\n               /MM/\n              +dMMms.\n             hMMMMMMN\n            `dMMMMMMm:\n      .+ss+sMNysMMoomMd+ss+.\n     +MMMMMMN` +MM/  hMMMMMNs\n     sMMMMMMm-hNMMMd-hMMMMMMd\n      :yddh+`hMMMMMMN :yddy/`\n             .hMMMMd:\n               `..`"@,
        Distro::MxSmall => "\u{1b}[37m    \\\\\\\\  /\n     \\\\\\\\/\n      \\\\\\\\\n   /\\\\/ \\\\\\\\\n  /  \\\\  /\\\\\n /    \\\\/  \\\\\n/__________\\\\"@,
        Distro::Mx => "\u{1b}[37mMMMMMMMMMMMMMMMMMMMMMMMMMMMMMMNMMMMMMMMM\nMMMMMMMMMMNs..yMMMMMMMMMMMMMm: +NMMMMMMM\nMMMMMMMMMN+    :mMMMMMMMMMNo` -dMMMMMMMM\nMMMMMMMMMMMs.   `oNMMMMMMh- `sNMMMMMMMMM\nMMMMMMMMMMMMN/    -hMMMN+  :dMMMMMMMMMMM\nMMMMMMMMMMMMMMh-    +ms. .sMMMMMMMMMMMMM\nMMMMMMMMMMMMMMMN+`   `  +NMMMMMMMMMMMMMM\nMMMMMMMMMMMMMMNMMd:    .dMMMMMMMMMMMMMMM\nMMMMMMMMMMMMm/-hMd-     `sNMMMMMMMMMMMMM\nMMMMMMMMMMNo`   -` :h/    -dMMMMMMMMMMMM\nMMMMMMMMMd:       /NMMh-   `+NMMMMMMMMMM\nMMMMMMMNo`         :mMMN+`   `-hMMMMMMMM\nMMMMMMh.            `oNMMd:    `/mMMMMMM\nMMMMm/                -hMd-      `sNMMMM\nMMNs`                   -          :dMMM\nMm:                                 `oMM\nMMMMMMMMMMMMMMMMMMMMMMMMMMMMMMMMMMMMMMMM"@,
        Distro::Namib => "\u{1b}[31m          .:+shysyhhhhysyhs+:.\n       -/yyys              syyy/-\n     -shy                      yhs-\n   -yhs                          shy-\n  +hy                              yh+\n +ds                                sd+\n/ys                  so              sy/\nsh                 smMMNdyo           hs\nyo               ymMMMMNNMMNho        oy\nN             ydMMMNNMMMMMMMMMmy       N\nN         shmMMMMNNMMMMMMMMMMMMMNy     N\nyo  ooshmNMMMNNNNMMMMMMMMMMMMMMMMMms  oy\nsd yyyyyyyyyyyyyyyyyyyyyyyyyyyyyyyyyy ds\n/ys                                  sy/\n +ds                                sd+\n  +hy                              yh+\n   -yhs                          shy-\n     -shy                      yhs-\n       -/yyys              syyy/-\n          .:+shysyhyhhysyhs+:."@,
        Distro::Neptune => "\u{1b}[37m            ./+sydddddddys/-.\n        .+ymNNdyooo/:+oooymNNmy/`\n     `/hNNh/.`             `-+dNNy:`\n    /mMd/.          .++.:oy/   .+mMd-\n  `sMN/             oMMmdy+.     `oNNo\n `hMd.           `/ymy/.           :NMo\n oMN-          `/dMd:               /MM-\n`mMy          -dMN+`                 mMs\n.MMo         -NMM/                   yMs\n dMh         mMMMo:`                `NMo\n /MM/        /ymMMMm-               sMN.\n  +Mm:         .hMMd`              oMN/\n   +mNs.      `yNd/`             -dMm-\n    .yMNs:    `/.`            `/yNNo`\n      .odNNy+-`           .:ohNNd/.\n         -+ymNNmdyyyyyyydmNNmy+.\n             `-//sssssss//."@,
        Distro::NetbsdSmall => "\u{1b}[37m\\\\\\\\\u{1b}[35m\\`-______,----__\n\u{1b}[37m \\\\\\\\        \u{1b}[35m__,---\\`_\n\u{1b}[37m  \\\\\\\\       \u{1b}[35m\\`.____\n\u{1b}[37m   \\\\\\\\\u{1b}[35m-______,----\\`-\n\u{1b}[37m    \\\\\\\\\n     \\\\\\\\\n      \\\\\\\\"@,
        Distro::NetBsd => "\u{1b}[35m                     `-/oshdmNMNdhyo+:-`\n\u{1b}[37my\u{1b}[35m/s+:-``    `.-:+oydNMMMMNhs/-``\n\u{1b}[37m-m+\u{1b}[35mNMMMMMMMMMMMMMMMMMMMNdhmNMMMmdhs+/-`\n \u{1b}[37m-m+\u{1b}[35mNMMMMMMMMMMMMMMMMMMMMmy+:`\n  \u{1b}[37m-N/\u{1b}[35mdMMMMMMMMMMMMMMMds:`\n   \u{1b}[37m-N/\u{1b}[35mhMMMMMMMMMmho:`\n    \u{1b}[37m-N/\u{1b}[35m-:/++/:.`\n\u{1b}[37m     :M+\n      :Mo\n       :Ms\n        :Ms\n         :Ms\n          :Ms\n           :Ms\n            :Ms\n             :Ms\n              :Ms"@,
        Distro::Netrunner => "\u{1b}[34m           .:oydmMMMMMMmdyo:`\n        -smMMMMMMMMMMMMMMMMMMds-\n      +mMMMMMMMMMMMMMMMMMMMMMMMMd+\n    /mMMMMMMMMMMMMMMMMMMMMMMMMMMMMm/\n  `hMMMMMMMMMMMMMMMMMMMMMMMMMMMMMMMMy`\n .mMMMMMMMMMMMMMMMMMMMMMMMMMMMMMMMMMMd`\n dMMMMMMMMMMMMMMMMMMMMMMNdhmMMMMMMMMMMh\n+MMMMMMMMMMMMMNmhyo+/-.   -MMMMMMMMMMMM/\nmMMMMMMMMd+:.`           `mMMMMMMMMMMMMd\nMMMMMMMMMMMdy/.          yMMMMMMMMMMMMMM\nMMMMMMMMMMMMMMMNh+`     +MMMMMMMMMMMMMMM\nmMMMMMMMMMMMMMMMMMs    -NMMMMMMMMMMMMMMd\n+MMMMMMMMMMMMMMMMMN.  `mMMMMMMMMMMMMMMM/\n dMMMMMMMMMMMMMMMMMy  hMMMMMMMMMMMMMMMh\n `dMMMMMMMMMMMMMMMMM-+MMMMMMMMMMMMMMMd`\n  `hMMMMMMMMMMMMMMMMmMMMMMMMMMMMMMMMy\n    /mMMMMMMMMMMMMMMMMMMMMMMMMMMMMm:\n      +dMMMMMMMMMMMMMMMMMMMMMMMMd/\n        -odMMMMMMMMMMMMMMMMMMdo-\n           `:+ydmNMMMMNmhy+-`"@,
        Distro::Nitrux => "\u{1b}[34m`:/.\n`/yo\n`/yo\n`/yo      .+:.\n`/yo      .sys+:.`\n`/yo       `-/sys+:.`\n`/yo           ./sss+:.`\n`/yo              .:oss+:-`\n`/yo                 ./o///:-`\n`/yo              `.-:///////:`\n`/yo           `.://///++//-``\n`/yo       `.-:////++++/-`\n`/yo    `-://///++o+/-`\n`/yo `-/+o+++ooo+/-`\n`/s+:+oooossso/.`\n`//+sssssso:.\n`+syyyy+:`\n:+s+-"@,
        Distro::NixosSmall => "\u{1b}[34m  \\\\\\\\  \\\\\\\\ //\n ==\\\\\\\\__\\\\\\\\/ //\n   //   \\\\\\\\//\n==//     //==\n //\\\\\\\\___//\n// /\\\\\\\\  \\\\\\\\==\n  // \\\\\\\\  \\\\\\\\"@,
        Distro::NixosOld => "\u{1b}[34m          ::::.    \u{1b}[36m':::::     ::::'\n\u{1b}[34m          ':::::    \u{1b}[36m':::::.  ::::'\n\u{1b}[34m            :::::     \u{1b}[36m'::::.:::::\n\u{1b}[34m      .......:::::..... \u{1b}[36m::::::::\n\u{1b}[34m     ::::::::::::::::::. \u{1b}[36m::::::    \u{1b}[34m::::.\n    ::::::::::::::::::::: \u{1b}[36m:::::.  \u{1b}[34m.::::'\n\u{1b}[36m           .....           ::::' \u{1b}[34m:::::'\n\u{1b}[36m          :::::            '::' \u{1b}[34m:::::'\n\u{1b}[36m ........:::::               ' \u{1b}[34m:::::::::::.\n\u{1b}[36m:::::::::::::                 \u{1b}[34m:::::::::::::\n\u{1b}[36m ::::::::::: \u{1b}[34m..              \u{1b}[34m:::::\n\u{1b}[36m     .::::: \u{1b}[34m.:::            \u{1b}[34m:::::\n\u{1b}[36m    .:::::  \u{1b}[34m:::::          \u{1b}[34m'''''    \u{1b}[36m.....\n    :::::   \u{1b}[34m':::::.  \u{1b}[36m......:::::::::::::'\n     :::     \u{1b}[34m::::::. \u{1b}[36m':::::::::::::::::'\n\u{1b}[34m            .:::::::: \u{1b}[36m'::::::::::\n\u{1b}[34m           .::::''::::.     \u{1b}[36m'::::.\n\u{1b}[34m          .::::'   ::::.     \u{1b}[36m'::::.\n\u{1b}[34m         .::::      ::::      \u{1b}[36m'::::."@,
        Distro::NixOs => "\u{1b}[34m          ▗▄▄▄       \u{1b}[36m▗▄▄▄▄    ▄▄▄▖\n\u{1b}[34m          ▜███▙       \u{1b}[36m▜███▙  ▟███▛\n\u{1b}[34m           ▜███▙       \u{1b}[36m▜███▙▟███▛\n\u{1b}[34m            ▜███▙       \u{1b}[36m▜██████▛\n\u{1b}[34m     ▟█████████████████▙ \u{1b}[36m▜████▛     \u{1b}[34m▟▙\n\u{1b}[34m    ▟███████████████████▙ \u{1b}[36m▜███▙    \u{1b}[34m▟██▙\n\u{1b}[36m           ▄▄▄▄▖           ▜███▙  \u{1b}[34m▟███▛\n\u{1b}[36m          ▟███▛             ▜██▛ \u{1b}[34m▟███▛\n\u{1b}[36m         ▟███▛               ▜▛ \u{1b}[34m▟███▛\n\u{1b}[36m▟███████████▛                  \u{1b}[34m▟██████████▙\n\u{1b}[36m▜██████████▛                  \u{1b}[34m▟███████████▛\n\u{1b}[36m      ▟███▛ \u{1b}[34m▟▙               ▟███▛\n\u{1b}[36m     ▟███▛ \u{1b}[34m▟██▙             ▟███▛\n\u{1b}[36m    ▟███▛  \u{1b}[34m▜███▙           ▝▀▀▀▀\n\u{1b}[36m    ▜██▛    \u{1b}[34m▜███▙ \u{1b}[36m▜██████████████████▛\n\u{1b}[36m     ▜▛     \u{1b}[34m▟████▙ \u{1b}[36m▜████████████████▛\n\u{1b}[34m           ▟██████▙       \u{1b}[36m▜███▙\n\u{1b}[34m          ▟███▛▜███▙       \u{1b}[36m▜███▙\n\u{1b}[34m         ▟███▛  ▜███▙       \u{1b}[36m▜███▙\n\u{1b}[34m         ▝▀▀▀    ▀▀▀▀▘       \u{1b}[36m▀▀▀▘"@,
        Distro::Nurunner => "\u{1b}[34m                  ,xc\n                ;00cxXl\n              ;K0,   .xNo.\n            :KO'       .lXx.\n          cXk.    ;xl     cXk.\n        cXk.    ;k:.,xo.    cXk.\n     .lXx.    :x::0MNl,dd.    :KO,\n   .xNx.    cx;:KMMMMMNo'dx.    ;KK;\n .dNl.    cd,cXMMMMMMMMMWd,ox'    'OK:\n;WK.    'K,.KMMMMMMMMMMMMMWc.Kx     lMO\n 'OK:    'dl'xWMMMMMMMMMM0::x:    'OK:\n   .kNo    .xo'xWMMMMMM0;:O:    ;KK;\n     .dXd.   .do,oNMMO;ck:    ;00,\n        oNd.   .dx,;'cO;    ;K0,\n          oNx.    okk;    ;K0,\n            lXx.        :KO'\n              cKk'    cXk.\n                ;00:lXx.\n                  ,kd."@,
        Distro::NuTyX => "\u{1b}[34m                                      .\n                                    .\n                                 ...\n                               ...\n            ....     .........--.\n       ..-++-----....--++++++---.\n    .-++++++-.   .-++++++++++++-----..\n  .--...  .++..-+++--.....-++++++++++--..\n .     .-+-. .**-            ....  ..-+----..\n     .+++.  .*+.         +            -++-----.\n   .+++++-  ++.         .*+.     .....-+++-----.\n  -+++-++. .+.          .-+***++***++--++++.  .\n -+-. --   -.          -*- ......        ..--.\n.-. .+-    .          -+.\n.  .+-                +.\n   --                 --\n  -+----.              .-\n  -++-.+.                .\n .++. --\n  +.  ----.\n  .  .+. ..\n      -  .\n      ."@,
        Distro::ObRevenge => "\u{1b}[31m   __   __\n     _@@@@   @@@g_\n   _@@@@@@   @@@@@@\n  _@@@@@@M   W@@@@@@_\n j@@@@P        ^W@@@@\n @@@@L____  _____Q@@@@\nQ@@@@@@@@@@j@@@@@@@@@@\n@@@@@    T@j@    T@@@@@\n@@@@@ ___Q@J@    _@@@@@\n@@@@@fMMM@@j@jggg@@@@@@\n@@@@@    j@j@^MW@P @@@@\nQ@@@@@ggg@@f@   @@@@@@L\n^@@@@WWMMP  ^    Q@@@@\n @@@@@_         _@@@@l\n  W@@@@@g_____g@@@@@P\n   @@@@@@@@@@@@@@@@l\n    ^W@@@@@@@@@@@P\n       ^TMMMMTll"@,
        Distro::OpenbsdSmall => "\u{1b}[33m      _____\n    \\\\-     -/\n \\\\_/         \\\\\n |        \u{1b}[37mO O\u{1b}[33m |\n |_  <   )  3 )\n / \\\\         /\n    /-_____-\\\\"@,
        Distro::OpenBsd => "\u{1b}[36m                                     _\n                                    (_)\n\u{1b}[33m              |    .\n\u{1b}[33m          .   |L  /|   .         \u{1b}[36m _\n\u{1b}[33m      _ . |\\ _| \\--+._/| .       \u{1b}[36m(_)\n\u{1b}[33m     / ||\\| Y J  )   / |/| ./\n    J  |)'( |        ` F`.'/       \u{1b}[36m _\n\u{1b}[33m  -<|  F         __     .-<        \u{1b}[36m(_)\n\u{1b}[33m    | /       .-'\u{1b}[36m. \u{1b}[33m`.  /\u{1b}[36m-. \u{1b}[33mL___\n    J \\\\      <    \u{1b}[36m\\ \u{1b}[33m | | \u{1b}[90mO\u{1b}[36m\\\\\u{1b}[33m|.-' \u{1b}[36m _\n\u{1b}[33m  _J \\\\  .-    \\\\\u{1b}[36m/ \u{1b}[90mO \u{1b}[36m| \u{1b}[33m| \\\\  |\u{1b}[33mF    \u{1b}[36m(_)\n\u{1b}[33m '-F  -<_.     \\\\   .-'  `-' L__\n__J  _   _.     >-'  \u{1b}[33m)\u{1b}[31m._.   \u{1b}[33m|-'\n\u{1b}[33m `-|.'   /_.          \u{1b}[31m\\_|  \u{1b}[33m F\n  /.-   .                _.<\n /'    /.'             .'  `\\\\\n  /L  /'   |/      _.-'-\\\\\n /'J       ___.---'\\|\n   |\\  .--' V  | `. `\n   |/`. `-.     `._)\n      / .-.\\\\\n      \\\\ (  `\\\\\n       `.\\\\"@,
        Distro::OpenEuler => "\u{1b}[34m                 `.cc.`\n             ``.cccccccc..`\n          `.cccccccccccccccc.`\n      ``.cccccccccccccccccccccc.``\n   `..cccccccccccccccccccccccccccc..`\n`.ccccccccccccccc\u{1b}[37m/++/\u{1b}[34mccccccccccccccccc.`\n.ccccccccccccccc\u{1b}[37mmNMMNdo+oso+\u{1b}[34mccccccccccc.\n.cccccccccc\u{1b}[37m/++odms+//+mMMMMm/:+syso/\u{1b}[34mcccc\n.ccccccccc\u{1b}[37myNNMMMs:::/::+o+/:\u{1b}[34mc\u{1b}[37mdMMMMMm\u{1b}[34mcccc\n.ccccccc\u{1b}[37m:+NmdyyhNNmNNNd:\u{1b}[34mccccc\u{1b}[34m\u{1b}[37m:oyyyo:\u{1b}[34mcccc\n.ccc\u{1b}[37m:ohdmMs:\u{1b}[34mcccc\u{1b}[37m+mNMNmy\u{1b}[34mccccccccccccccccc\n.cc\u{1b}[37m/NMMMMMo////:\u{1b}[34mc\u{1b}[37m:///:\u{1b}[34mcccccccccccccccccc\n.cc\u{1b}[37m:syysyNMNNNMNy\u{1b}[34mccccccccccccccccccccccc\n.cccccccc\u{1b}[37m+MMMMMNy\u{1b}[34mc\u{1b}[37m:/+++/\u{1b}[34mcccccccccccccccc\n.ccccccccc\u{1b}[37mohhhs/\u{1b}[34mc\u{1b}[37momMMMMNh\u{1b}[34mccccccccccccccc\n.ccccccccccccccc\u{1b}[37m:MMMMMMMM/\u{1b}[34mcccccccccccccc\n.cccccccccccccccc\u{1b}[37msNNNNNd+\u{1b}[34mcccccccccccccc.\n`..cccccccccccccccc\u{1b}[37m/+/:\u{1b}[34mcccccccccccccc..`\n   ``.cccccccccccccccccccccccccccc.``\n       `.cccccccccccccccccccccc.`\n          ``.cccccccccccccc.``\n              `.cccccccc.`\n                 `....`"@,
        Distro::OpenIndiana => "\u{1b}[37m                         .sy/\n                         .yh+\n\n           \u{1b}[34m-+syyyo+-     \u{1b}[37m /+.\n         \u{1b}[34m+ddo/---/sdh/   \u{1b}[37m ym-\n       \u{1b}[34m`hm+        `sms\u{1b}[37m   ym-```````.-.\n       \u{1b}[34msm+           sm/ \u{1b}[37m ym-         +s\n       \u{1b}[34mhm.           /mo \u{1b}[37m ym-         /h\n       \u{1b}[34momo           ym: \u{1b}[37m ym-       `os`\n        \u{1b}[34msmo`       .ym+ \u{1b}[37m  ym-     .os-\n     ``  \u{1b}[34m:ymy+///oyms- \u{1b}[37m   ym-  .+s+.\n   ..`     \u{1b}[34m`:+oo+/-`  \u{1b}[37m    -//oyo-\n -:`                   .:oys/.\n+-               `./oyys/.\nh+`      `.-:+oyyyo/-`\n`/ossssysso+/-.`"@,
        Distro::Openmamba => "\u{1b}[37m                 `````\n           .-/+ooooooooo+/:-`\n        ./ooooooooooooooooooo+:.\n      -+oooooooooooooooooooooooo+-\n    .+ooooooooo+/:---::/+ooooooooo+.\n   :oooooooo/-`          `-/oo\u{1b}[32ms´\u{1b}[37moooo.\u{1b}[32ms´\u{1b}[37m\n  :ooooooo/`                `\u{1b}[32msNds\u{1b}[37mooo\u{1b}[32msNds\u{1b}[37m\n -ooooooo-                   \u{1b}[32m:dmy\u{1b}[37mooo\u{1b}[32m:dmy\u{1b}[37m\n +oooooo:                      :oooooo-\n.ooooooo                        .://:`\n:oooooo+                        ./+o+:`\n-ooooooo`                      `oooooo+\n`ooooooo:                      /oooooo+\n -ooooooo:                    :ooooooo.\n  :ooooooo+.                .+ooooooo:\n   :oooooooo+-`          `-+oooooooo:\n    .+ooooooooo+/::::://oooooooooo+.\n      -+oooooooooooooooooooooooo+-\n        .:ooooooooooooooooooo+:.\n           `-:/ooooooooo+/:.`\n                 ``````"@,
        Distro::OpenMandriva => "\u{1b}[34m                  ``````\n            `-:/+++++++//:-.`\n         .:+++oooo+/:.``   ``\n      `:+ooooooo+:.  `-:/++++++/:.`\n     -+oooooooo:` `-++o+/::::://+o+/-\n   `/ooooooooo-  -+oo/.`        `-/oo+.\n  `+ooooooooo.  :os/`              .+so:\n  +sssssssss/  :ss/                 `+ss-\n :ssssssssss`  sss`                  .sso\n ossssssssss  `yyo                    sys\n`sssssssssss` `yys                   `yys\n`sssssssssss:  +yy/                  +yy:\n oyyyyyyyyyys. `oyy/`              `+yy+\n :yyyyyyyyyyyo. `+yhs:.         `./shy/\n  oyyyyyyyyyyys:` .oyhys+:----/+syhy+. `\n  `syyyyyyyyyyyyo-` .:osyhhhhhyys+:``.:`\n   `oyyyyyyyyyyyyys+-`` `.----.```./oo.\n     /yhhhhhhhhhhhhhhyso+//://+osyhy/`\n      `/yhhhhhhhhhhhhhhhhhhhhhhhhy/`\n        `:oyhhhhhhhhhhhhhhhhhhyo:`\n            .:+syhhhhhhhhys+:-`\n                 ``....``"@,
        Distro::OpenStage => "\u{1b}[32m                 /(/\n              .(((((((,\n             /(((((((((/\n           .(((((/,/(((((,\n          *(((((*   ,(((((/\n          (((((*      .*/((\n         *((((/  (//(/*\n         /((((*  ((((((((((,\n      .  /((((*  (((((((((((((.\n     ((. *((((/        ,((((((((\n   ,(((/  (((((/     **   ,((((((*\n  /(((((. .(((((/   //(((*  *(((((/\n .(((((,    ((/   .(((((/.   .(((((,\n /((((*        ,(((((((/      ,(((((\n /(((((((((((((((((((/.  /(((((((((/\n /(((((((((((((((((,   /(((((((((((/\n     */(((((//*.      */((/(/(/*"@,
        Distro::OpenWrt => "\u{1b}[34m _______\n|       |.-----.-----.-----.\n|   -   ||  _  |  -__|     |\n|_______||   __|_____|__|__|\n         |__|\n ________        __\n|  |  |  |.----.|  |_\n|  |  |  ||   _||   _|\n|________||__|  |____|"@,
        Distro::OpenSourceMediaCenter => "\u{1b}[34m            -+shdmNNNNmdhs+-\n        .+hMNho/:..``..:/ohNMh+.\n      :hMdo.                .odMh:\n    -dMy-                      -yMd-\n   sMd-                          -dMs\n  hMy       +.            .+       yMh\n yMy        dMs.        .sMd        yMy\n:Mm         dMNMs`    `sMNMd        `mM:\nyM+         dM//mNs``sNm//Md         +My\nmM-         dM:  +NNNN+  :Md         -Mm\nmM-         dM: `oNN+    :Md         -Mm\nyM+         dM/+NNo`     :Md         +My\n:Mm`        dMMNs`       :Md        `mM:\n yMy        dMs`         -ms        yMy\n  hMy       +.                     yMh\n   sMd-                          -dMs\n    -dMy-                      -yMd-\n      :hMdo.                .odMh:\n        .+hMNho/:..``..:/ohNMh+.\n            -+shdmNNNNmdhs+-"@,
        Distro::Oracle => "\u{1b}[31m\n      `-/+++++++++++++++++/-.`\n   `/syyyyyyyyyyyyyyyyyyyyyyys/.\n  :yyyyo/-...............-/oyyyy/\n /yyys-                     .oyyy+\n.yyyy`                       `syyy-\n:yyyo                         /yyy/\n.yyyy`                       `syyy-\n /yyys.                     .oyyyo\n  /yyyyo:-...............-:oyyyy/`\n   `/syyyyyyyyyyyyyyyyyyyyyyys+.\n     `.:/+ooooooooooooooo+/:.`"@,
        Distro::OsElbrus => "\u{1b}[34m   ▄▄▄▄▄▄▄▄▄▄▄▄▄▄▄▄▄▄▄▄▄▄▄▄▄▄▄\n   ██▀▀▀▀▀▀▀▀▀▀▀▀▀▀▀▀▀▀▀▀▀▀▀██\n   ██                       ██\n   ██   ███████   ███████   ██\n   ██   ██   ██   ██   ██   ██\n   ██   ██   ██   ██   ██   ██\n   ██   ██   ██   ██   ██   ██\n   ██   ██   ██   ██   ██   ██\n   ██   ██   ███████   ███████\n   ██   ██                  ██\n   ██   ██▄▄▄▄▄▄▄▄▄▄▄▄▄▄▄▄▄▄██\n   ██   ▀▀▀▀▀▀▀▀▀▀▀▀▀▀▀▀▀▀▀▀██\n   ██                       ██\n   ███████████████████████████"@,
        Distro::PacBsd => "\u{1b}[31m      :+sMs.\n  `:ddNMd-                         -o--`\n -sMMMMh:                          `+N+``\n yMMMMMs`     .....-/-...           `mNh/\n yMMMMMmh+-`:sdmmmmmmMmmmmddy+-``./ddNMMm\n yNMMNMMMMNdyyNNMMMMMMMMMMMMMMMhyshNmMMMm\n :yMMMMMMMMMNdooNMMMMMMMMMMMMMMMMNmy:mMMd\n  +MMMMMMMMMmy:sNMMMMMMMMMMMMMMMMMMMmshs-\n  :hNMMMMMMN+-+MMMMMMMMMMMMMMMMMMMMMMMs.\n .omysmNNhy/+yNMMMMMMMMMMNMMMMMMMMMNdNNy-\n /hMM:::::/hNMMMMMMMMMMMm/-yNMMMMMMN.mMNh`\n.hMMMMdhdMMMMMMMMMMMMMMmo  `sMMMMMMN mMMm-\n:dMMMMMMMMMMMMMMMMMMMMMdo+  oMMMMMMN`smMNo`\n/dMMMMMMMMMMMMMMMMMMMMMNd/` :yMMMMMN:-hMMM.\n:dMMMMMMMMMMMMMMMMMMMMMNh`  oMMMMMMNo/dMNN`\n:hMMMMMMMMMMMMMMMMMMMMMMNs--sMMMMMMMNNmy++`\n sNMMMMMMMMMMMMMMMMMMMMMMMmmNMMMMMMNho::o.\n :yMMMMMMMMMMMMMNho+sydNNNNNNNmysso/` -//\n  /dMMMMMMMMMMMMMs-  ````````..``\n   .oMMMMMMMMMMMMNs`               ./y:`\n     +dNMMNMMMMMMMmy`          ``./ys.\n      `/hMMMMMMMMMMMNo-``    `.+yy+-`\n        `-/hmNMNMMMMMMmmddddhhy/-`\n            `-+oooyMMMdsoo+/:."@,
        Distro::ParabolaSmall => "\u{1b}[35m  __ __ __  _\n.`_//_//_/ / `.\n          /  .`\n         / .`\n        /.`\n       /`"@,
        Distro::Parabola => "\u{1b}[35m                          `.-.    `.\n                   `.`  `:++.   `-+o+.\n             `` `:+/. `:+/.   `-+oooo+\n        ``-::-.:+/. `:+/.   `-+oooooo+\n    `.-:///-  ..`   .-.   `-+oooooooo-\n `..-..`                 `+ooooooooo:\n``                        :oooooooo/\n                          `ooooooo:\n                          `oooooo:\n                          -oooo+.\n                          +ooo/`\n                         -ooo-\n                        `+o/.\n                        /+-\n                       //`\n                      -."@,
        Distro::Pardus => "\u{1b}[33m .smNdy+-    `.:/osyyso+:.`    -+ydmNs.\n/Md- -/ymMdmNNdhso/::/oshdNNmdMmy/. :dM/\nmN.     oMdyy- -y          `-dMo     .Nm\n.mN+`  sMy hN+ -:             yMs  `+Nm.\n `yMMddMs.dy `+`               sMddMMy`\n   +MMMo  .`  .                 oMMM+\n   `NM/    `````.`    `.`````    +MN`\n   yM+   `.-:yhomy    ymohy:-.`   +My\n   yM:          yo    oy          :My\n   +Ms         .N`    `N.      +h sM+\n   `MN      -   -::::::-   : :o:+`NM`\n    yM/    sh   -dMMMMd-   ho  +y+My\n    .dNhsohMh-//: /mm/ ://-yMyoshNd`\n      `-ommNMm+:/. oo ./:+mMNmmo:`\n     `/o+.-somNh- :yy: -hNmos-.+o/`\n    ./` .s/`s+sMdd+``+ddMs+s`/s. `/.\n        : -y.  -hNmddmNy.  .y- :\n         -+       `..`       +-"@,
        Distro::Parrot => "\u{1b}[36m  `:oho/-`\n`mMMMMMMMMMMMNmmdhy-\n dMMMMMMMMMMMMMMMMMMs`\n +MMsohNMMMMMMMMMMMMMm/\n .My   .+dMMMMMMMMMMMMMh.\n  +       :NMMMMMMMMMMMMNo\n           `yMMMMMMMMMMMMMm:\n             /NMMMMMMMMMMMMMy`\n              .hMMMMMMMMMMMMMN+\n                  ``-NMMMMMMMMMd-\n                     /MMMMMMMMMMMs`\n                      mMMMMMMMsyNMN/\n                      +MMMMMMMo  :sNh.\n                      `NMMMMMMm     -o/\n                       oMMMMMMM.\n                       `NMMMMMM+\n                        +MMd/NMh\n                         mMm -mN`\n                         /MM  `h:\n                          dM`   .\n                          :M-\n                           d:\n                           -+\n                            -"@,
        Distro::Parsix => "\u{1b}[31m-/+/:.\n               \u{1b}[31m.syssssys.\n       \u{1b}[33m.--.    \u{1b}[31mssssssssso\u{1b}[33m   ..--.\n     :++++++:  \u{1b}[31m+ssssssss+\u{1b}[33m ./++/+++:\n    /+++++++++.\u{1b}[31m.yssooooy`\u{1b}[33m-+///////o-\n    /++++++++++.\u{1b}[31m+soooos:\u{1b}[33m:+////////+-\n     :+++++////o-\u{1b}[31moooooo-\u{1b}[33m+/////////-\n      `-/++//++-\u{1b}[90m.-----.-\u{1b}[33m:+/////:-\n  \u{1b}[37m-://::--\u{1b}[33m-:/:\u{1b}[90m.--.````.--.\u{1b}[33m:::-\u{1b}[37m--::::::.\n\u{1b}[37m-/:::::::://:\u{1b}[90m.:-`      `-:\u{1b}[37m`:/:::::::--/-\n\u{1b}[37m/::::::::::/-\u{1b}[90m--.        .-.\u{1b}[37m-/://///::::/\n\u{1b}[37m-/:::::::::/:\u{1b}[90m`:-.      .-:\u{1b}[37m`:///////////-\n `\u{1b}[37m-::::--\u{1b}[33m.-://.\u{1b}[90m---....---\u{1b}[33m`:+/:-\u{1b}[37m--::::-`\n       \u{1b}[33m-/+///+o/-\u{1b}[90m.----.\u{1b}[33m.:oo+++o+.\n     \u{1b}[33m-+/////+++o:\u{1b}[31msyyyyy.\u{1b}[33mo+++++++++:\n    \u{1b}[33m.+////+++++-\u{1b}[31m+sssssy+\u{1b}[33m.++++++++++\\\n    \u{1b}[33m.+:/++++++.\u{1b}[31m.yssssssy-\u{1b}[33m`+++++++++:\n     \u{1b}[33m:/+++++-  \u{1b}[31m+sssssssss  \u{1b}[33m-++++++-\n       \u{1b}[33m`--`    \u{1b}[31m+sssssssso    \u{1b}[33m`--`\n                \u{1b}[31m+sssssy+`\n                 \u{1b}[31m`.::-`"@,
        Distro::Pcbsd => "\u{1b}[31m                       ..\n                        s.\n                        +y\n                        yN\n                       -MN  `.\n                      :NMs `m\n                    .yMMm` `No\n            `-/+++sdMMMNs+-`+Ms\n        `:oo+-` .yMMMMy` `-+oNMh\n      -oo-     +NMMMM/       oMMh-\n    .s+` `    oMMMMM/     -  oMMMhy.\n   +s`- ::   :MMMMMd     -o `mMMMy`s+\n  y+  h .Ny+oNMMMMMN/    sh+NMMMMo  +y\n s+ .ds  -NMMMMMMMMMMNdhdNMMMMMMh`   +s\n-h .NM`   `hMMMMMMMMMMMMMMNMMNy:      h-\ny- hMN`     hMMmMMMMMMMMMNsdMNs.      -y\nm` mMMy`    oMMNoNMMMMMMo`  sMMMo     `m\nm` :NMMMdyydMMMMo+MdMMMs     sMMMd`   `m\nh-  `+ymMMMMMMMM--M+hMMN/    +MMMMy   -h\n:y     `.sMMMMM/ oMM+.yMMNddNMMMMMm   y:\n y:   `s  dMMN- .MMMM/ :MMMMMMMMMMh  :y\n `h:  `mdmMMM/  yMMMMs  sMMMMMMMMN- :h`\n   so  -NMMMN   /mmd+  `dMMMMMMMm- os\n    :y: `yMMM`       `+NMMMMMMNo`:y:\n      /s+`.omy      /NMMMMMNh/.+s:\n        .+oo:-.     /mdhs+::oo+.\n            -/o+++++++++++/-"@,
        Distro::PcLinuxOs => "\u{1b}[34m            mhhhyyyyhhhdN\n        dyssyhhhhhhhhhhhssyhN\n     Nysyhhyo/:-.....-/oyhhhssd\n   Nsshhy+.              `/shhysm\n  dohhy/                    -shhsy\n dohhs`                       /hhys\nN+hho   \u{1b}[37m+ssssss+-   .+syhys+   \u{1b}[34m/hhsy\nohhh`   \u{1b}[37mymmo++hmm+`smmy/::+y`   \u{1b}[34mshh+\n+hho    \u{1b}[37mymm-  /mmy+mms          \u{1b}[34m:hhod\n/hh+    \u{1b}[37mymmhhdmmh.smm/          \u{1b}[34m.hhsh\n+hhs    \u{1b}[37mymm+::-`  /mmy`    `    \u{1b}[34m/hh+m\nyyhh-   \u{1b}[37mymm-       /dmdyosyd`  \u{1b}[34m`yhh+\n ohhy`  \u{1b}[37m://`         -/+++/-   \u{1b}[34mohhom\n N+hhy-                      `shhoh\n   sshho.                  `+hhyom\n    dsyhhs/.            `:ohhhoy\n      dysyhhhso///://+syhhhssh\n         dhyssyhhhhhhyssyyhN\n              mddhdhdmN"@,
        Distro::Pengwin => "\u{1b}[95m                     ...`\n\u{1b}[95m                     `-///:-`\n\u{1b}[95m                       .+\u{1b}[35mssys\u{1b}[95m/\n\u{1b}[95m                        +\u{1b}[35myyyyy\u{1b}[95mo    \u{1b}[35m\n\u{1b}[35m                        -yyyyyy:\n\u{1b}[35m           `.:/+ooo+/:` -yyyyyy+\n\u{1b}[35m         `:oyyyyyys+:-.`syyyyyy:\n\u{1b}[35m        .syyyyyyo-`   .oyyyyyyo\n\u{1b}[35m       `syyyyyy   `-+yyyyyyy/`\n\u{1b}[35m       /yyyyyy+ -/osyyyyyyo/.\n\u{1b}[35m       +yyyyyy-  `.-:::-.`\n\u{1b}[35m       .yyyyyy-\n\u{1b}[95m        :\u{1b}[35myyyyy\u{1b}[95mo\n\u{1b}[95m         .+\u{1b}[35mooo\u{1b}[95m+\n\u{1b}[95m           `.::/:."@,
        Distro::Peppermint => "\u{1b}[31m               PPPPPPPPPPPPPP\n\u{1b}[31m           PPPP\u{1b}[97mMMMMMMM\u{1b}[31mPPPPPPPPPPP\n\u{1b}[31m         PPPP\u{1b}[97mMMMMMMMMMM\u{1b}[31mPPPPPPPP\u{1b}[97mMM\u{1b}[31mPP\n\u{1b}[31m       PPPPPPPP\u{1b}[97mMMMMMMM\u{1b}[31mPPPPPPPP\u{1b}[97mMMMMM\u{1b}[31mPP\n\u{1b}[31m     PPPPPPPPPPPP\u{1b}[97mMMMMMM\u{1b}[31mPPPPPPP\u{1b}[97mMMMMMMM\u{1b}[31mPP\n\u{1b}[31m    PPPPPPPPPPPP\u{1b}[97mMMMMMMM\u{1b}[31mPPPP\u{1b}[97mM\u{1b}[31mP\u{1b}[97mMMMMMMMMM\u{1b}[31mPP\n\u{1b}[31m   PP\u{1b}[97mMMMM\u{1b}[31mPPPPPPPPPP\u{1b}[97mMMM\u{1b}[31mPPPPP\u{1b}[97mMMMMMMM\u{1b}[31mP\u{1b}[97mMM\u{1b}[31mPPPP\n\u{1b}[31m   P\u{1b}[97mMMMMMMMMMM\u{1b}[31mPPPPPP\u{1b}[97mMM\u{1b}[31mPPPPP\u{1b}[97mMMMMMM\u{1b}[31mPPPPPPPP\n\u{1b}[31m  P\u{1b}[97mMMMMMMMMMMMM\u{1b}[31mPPPPP\u{1b}[97mMM\u{1b}[31mPP\u{1b}[97mM\u{1b}[31mP\u{1b}[97mMM\u{1b}[31mP\u{1b}[97mMM\u{1b}[31mPPPPPPPPPPP\n\u{1b}[31m  P\u{1b}[97mMMMMMMMMMMMMMMMM\u{1b}[31mPP\u{1b}[97mM\u{1b}[31mP\u{1b}[97mMMM\u{1b}[31mPPPPPPPPPPPPPPPP\n\u{1b}[31m  P\u{1b}[97mMMM\u{1b}[31mPPPPPPPPPPPPPPPPPPPPPPPPPPPPPP\u{1b}[97mMMMMM\u{1b}[31mP\n\u{1b}[31m  PPPPPPPPPPPPPPPP\u{1b}[97mMMM\u{1b}[31mP\u{1b}[97mM\u{1b}[31mP\u{1b}[97mMMMMMMMMMMMMMMMM\u{1b}[31mPP\n\u{1b}[31m  PPPPPPPPPPP\u{1b}[97mMM\u{1b}[31mP\u{1b}[97mMM\u{1b}[31mPPPP\u{1b}[97mMM\u{1b}[31mPPPPP\u{1b}[97mMMMMMMMMMMM\u{1b}[31mPP\n\u{1b}[31m   PPPPPPPP\u{1b}[97mMMMMMM\u{1b}[31mPPPPP\u{1b}[97mMM\u{1b}[31mPPPPPP\u{1b}[97mMMMMMMMMM\u{1b}[31mPP\n\u{1b}[31m   PPPP\u{1b}[97mMM\u{1b}[31mP\u{1b}[97mMMMMMMM\u{1b}[31mPPPPPP\u{1b}[97mMM\u{1b}[31mPPPPPPPPPP\u{1b}[97mMMMM\u{1b}[31mPP\n\u{1b}[31m    PP\u{1b}[97mMMMMMMMMM\u{1b}[31mP\u{1b}[97mM\u{1b}[31mPPPP\u{1b}[97mMMMMMM\u{1b}[31mPPPPPPPPPPPPP\n\u{1b}[31m     PP\u{1b}[97mMMMMMMM\u{1b}[31mPPPPPPP\u{1b}[97mMMMMMM\u{1b}[31mPPPPPPPPPPPP\n\u{1b}[31m       PP\u{1b}[97mMMMM\u{1b}[31mPPPPPPPPP\u{1b}[97mMMMMMMM\u{1b}[31mPPPPPPPP\n\u{1b}[31m         PP\u{1b}[97mMM\u{1b}[31mPPPPPPPP\u{1b}[97mMMMMMMMMMM\u{1b}[31mPPPP\n\u{1b}[31m           PPPPPPPPPP\u{1b}[97mMMMMMMMM\u{1b}[31mPPPP\n\u{1b}[31m               PPPPPPPPPPPPPP"@,
        Distro::PoposSmall => "\u{1b}[36m______\n\\\\   _ \\\\        __\n \\\\ \\\\ \\\\ \\\\      / /\n  \\\\ \\\\_\\\\ \\\\    / /\n   \\\\  ___\\\\  /_/\n    \\\\ \\\\    _\n   __\\\\_\\\\__(_)_\n  (___________)`"@,
        Distro::PopOs => "\u{1b}[36m             /////////////\n         /////////////////////\n      ///////\u{1b}[37m*767\u{1b}[36m////////////////\n    //////\u{1b}[37m7676767676*\u{1b}[36m//////////////\n   /////\u{1b}[37m76767\u{1b}[36m//\u{1b}[37m7676767\u{1b}[36m//////////////\n  /////\u{1b}[37m767676\u{1b}[36m///\u{1b}[37m*76767\u{1b}[36m///////////////\n ///////\u{1b}[37m767676\u{1b}[36m///\u{1b}[37m76767\u{1b}[36m.///\u{1b}[37m7676*\u{1b}[36m///////\n/////////\u{1b}[37m767676\u{1b}[36m//\u{1b}[37m76767\u{1b}[36m///\u{1b}[37m767676\u{1b}[36m////////\n//////////\u{1b}[37m76767676767\u{1b}[36m////\u{1b}[37m76767\u{1b}[36m/////////\n///////////\u{1b}[37m76767676\u{1b}[36m//////\u{1b}[37m7676\u{1b}[36m//////////\n////////////,\u{1b}[37m7676\u{1b}[36m,///////\u{1b}[37m767\u{1b}[36m///////////\n/////////////*\u{1b}[37m7676\u{1b}[36m///////\u{1b}[37m76\u{1b}[36m////////////\n///////////////\u{1b}[37m7676\u{1b}[36m////////////////////\n ///////////////\u{1b}[37m7676\u{1b}[36m///\u{1b}[37m767\u{1b}[36m////////////\n  //////////////////////\u{1b}[37m'\u{1b}[36m////////////\n   //////\u{1b}[37m.7676767676767676767,\u{1b}[36m//////\n    /////\u{1b}[37m767676767676767676767\u{1b}[36m/////\n      ///////////////////////////\n         /////////////////////\n             /////////////"@,
        Distro::Porteus => "\u{1b}[36m             `.-:::-.`\n         -+ydmNNNNNNNmdy+-\n      .+dNmdhs+//////+shdmdo.\n    .smmy+-`             ./sdy:\n  `omdo.    `.-/+osssso+/-` `+dy.\n `yms.   `:shmNmdhsoo++osyyo-``oh.\n hm/   .odNmds/.`    ``.....:::-+s\n/m:  `+dNmy:`   `./oyhhhhyyooo++so\nys  `yNmy-    .+hmmho:-.`     ```\ns:  yNm+`   .smNd+.\n`` /Nm:    +dNd+`\n   yN+   `smNy.\n   dm    oNNy`\n   hy   -mNm.\n   +y   oNNo\n   `y`  sNN:\n    `:  +NN:\n     `  .mNo\n         /mm`\n          /my`\n           .sy`\n             .+:\n                `"@,
        Distro::PostmarketosSmall => "\u{1b}[32m        /\\\\\n       /  \\\\\n      /    \\\\\n      \\\\__   \\\\\n    /\\\\__ \\\\  _\\\\\n   /   /  \\\\/ __\n  /   / ____/  \\\\\n /    \\\\ \\\\       \\\\\n/_____/ /________\\\\"@,
        Distro::PostMarketOs => "\u{1b}[32m                 /\\\\\n                /  \\\\\n               /    \\\\\n              /      \\\\\n             /        \\\\\n            /          \\\\\n            \\\\           \\\\\n          /\\\\ \\\\____       \\\\\n         /  \\\\____ \\\\       \\\\\n        /       /  \\\\       \\\\\n       /       /    \\\\    ___\\\\\n      /       /      \\\\  / ____\n     /       /        \\\\/ /    \\\\\n    /       / __________/      \\\\\n   /        \\\\ \\\\                 \\\\\n  /          \\\\ \\\\                 \\\\\n /           / /                  \\\\\n/___________/ /____________________\\\\"@,
        Distro::PuffOs => "\u{1b}[33m\n              _,..._,m,\n            ,/'      '\"\";\n           /             \".\n         ,'mmmMMMMmm.      \\\n       _/-\"^^^^^\"\"\"%#%mm,   ;\n ,m,_,'              \"###)  ;,\n(###%                 \\#/  ;##mm.\n ^#/  __        ___    ;  (######)\n  ;  //.\\\\     //.\\\\   ;   \\####/\n _; (#\\\"//     \\\\\"/#)  ;  ,/\n@##\\ \\##/   =   `\"=\" ,;mm/\n`\\##>.____,...,____,<####@"@,
        Distro::Puppy => "\u{1b}[34m           `-/osyyyysosyhhhhhyys+-\n  -ohmNNmh+/hMMMMMMMMNNNNd+dMMMMNM+\n yMMMMNNmmddo/NMMMNNNNNNNNNo+NNNNNy\n.NNNNNNmmmddds:MMNNNNNNNNNNNh:mNNN/\n-NNNdyyyhdmmmd`dNNNNNmmmmNNmdd/os/\n.Nm+shddyooo+/smNNNNmmmmNh.   :mmd.\n NNNNy:`   ./hmmmmmmmNNNN:     hNMh\n NMN-    -++- +NNNNNNNNNNm+..-sMMMM-\n.MMo    oNNNNo hNNNNNNNNmhdNNNMMMMM+\n.MMs    /NNNN/ dNmhs+:-`  yMMMMMMMM+\n mMM+     .. `sNN+.      hMMMMhhMMM-\n +MMMmo:...:sNMMMMMms:` hMMMMm.hMMy\n  yMMMMMMMMMMMNdMMMMMM::/+o+//dMMd`\n   sMMMMMMMMMMN+:oyyo:sMMMNNMMMNy`\n    :mMMMMMMMMMMMmddNMMMMMMMMmh/\n      /dMMMMMMMMMMMMMMMMMMNdy/`\n        .+hNMMMMMMMMMNmdhs/.\n            .:/+ooo+/:-."@,
        Distro::PureosSmall => "\u{1b}[32m _____________\n|  _________  |\n| |         | |\n| |         | |\n| |_________| |\n|_____________|"@,
        Distro::PureOs => "\u{1b}[32mdmmmmmmmmmmmmmmmmmmmmmmmmmmmmmmmmmmmmmmd\ndNm//////////////////////////////////mNd\ndNd                                  dNd\ndNd                                  dNd\ndNd                                  dNd\ndNd                                  dNd\ndNd                                  dNd\ndNd                                  dNd\ndNd                                  dNd\ndNd                                  dNd\ndNm//////////////////////////////////mNd\ndmmmmmmmmmmmmmmmmmmmmmmmmmmmmmmmmmmmmmmd"@,
        Distro::Qubes => "\u{1b}[34m               `..--..`\n            `.----------.`\n        `..----------------..`\n     `.------------------------.``\n `..-------------....-------------..`\n.::----------..``    ``..----------:+:\n:////:----..`            `..---:/ossso\n:///////:`                  `/osssssso\n:///////:                    /ssssssso\n:///////:                    /ssssssso\n:///////:                    /ssssssso\n:///////:                    /ssssssso\n:///////:                    /ssssssso\n:////////-`                .:sssssssso\n:///////////-.`        `-/osssssssssso\n`//////////////:-```.:+ssssssssssssso-\n  .-://////////////sssssssssssssso/-`\n     `.:///////////sssssssssssssso:.\n         .-:///////ssssssssssssssssss/`\n            `.:////ssss+/+ssssssssssss.\n                `--//-    `-/osssso/."@,
        Distro::Qubyt => "\u{1b}[34m    ########################\u{1b}[35m(\u{1b}[30mooo\n\u{1b}[34m    ########################\u{1b}[35m(\u{1b}[30mooo\n\u{1b}[34m###\u{1b}[35m(\u{1b}[30mooo                  \u{1b}[34m###\u{1b}[35m(\u{1b}[30mooo\n\u{1b}[34m###\u{1b}[35m(\u{1b}[30mooo                  \u{1b}[34m###\u{1b}[35m(\u{1b}[30mooo\n\u{1b}[34m###\u{1b}[35m(\u{1b}[30mooo                  \u{1b}[34m###\u{1b}[35m(\u{1b}[30mooo\n\u{1b}[34m###\u{1b}[35m(\u{1b}[30mooo                  \u{1b}[34m###\u{1b}[35m(\u{1b}[30mooo\n\u{1b}[34m###\u{1b}[35m(\u{1b}[30mooo                  \u{1b}[34m###\u{1b}[35m(\u{1b}[30mooo\n\u{1b}[34m###\u{1b}[35m(\u{1b}[30mooo                  \u{1b}[34m###\u{1b}[35m(\u{1b}[30mooo\n\u{1b}[34m###\u{1b}[35m(\u{1b}[30mooo           \u{1b}[34m##\u{1b}[30mo    \u{1b}[35m((((\u{1b}[30mooo\n\u{1b}[34m###\u{1b}[35m(\u{1b}[30mooo          o\u{1b}[35m((\u{1b}[34m###   \u{1b}[30moooooo\n\u{1b}[34m###\u{1b}[35m(\u{1b}[30mooo           oo\u{1b}[35m((\u{1b}[34m###\u{1b}[30mo\n\u{1b}[34m###\u{1b}[35m(\u{1b}[30mooo             ooo\u{1b}[35m((\u{1b}[34m###\n\u{1b}[34m################\u{1b}[35m(\u{1b}[30moo    oo\u{1b}[35m((((\u{1b}[30mo\n\u{1b}[35m(((((((((((((((((\u{1b}[30mooo     ooooo\n  oooooooooooooooooo        o"@,
        Distro::Quibian => "\u{1b}[33m            `.--::::::::--.`\n        `.-:::-..``   ``..-::-.`\n      .::::-`   .\u{1b}[37m+\u{1b}[33m:``       `.-::.`\n    .::::.`    -::::::-`       `.::.\n  `-:::-`    -:::::::::--..``     .::`\n `::::-     .\u{1b}[37moy\u{1b}[33m:::::::---.```.:    `::`\n -::::  `.-:::::::::::-.```         `::\n.::::.`-:::::::::::::.               `:.\n-::::.:::::::::::::::                 -:\n::::::::::::::::::::`                 `:\n:::::::::::::::::::-                  `:\n:::::::::::::::::::                   --\n.:::::::::::::::::`                  `:`\n`:::::::::::::::::                   -`\n .:::::::::::::::-                  -`\n  `::::::::::::::-                `.`\n    .::::::::::::-               ``\n      `.--:::::-."@,
        Distro::Radix => "\u{1b}[32m                .:oyhdmNo\n             `/yhyoosdms`\n            -o+/ohmmho-\n           ..`.:/:-`\n     `.--:::-.``\u{1b}[31m\n  .+ydNMMMMMMNmhs:`\n`omMMMMMMMMMMMMMMNh-\noNMMMNmddhhyyhhhddmy.\nmMMMMNmmddhhysoo+/:-`\nyMMMMMMMMMMMMMMMMNNh.\n-dmmmmmNNMMMMMMMMMMs`\n -+oossyhmMMMMMMMMd-\n `sNMMMMMMMMMMMMMm:\n  `yMMMMMMNmdhhhh:\n   `sNMMMMMNmmho.\n    `+mMMMMMMMy.\n      .yNMMMm+`\n       `:yd+."@,
        Distro::RaspbianSmall => "\u{1b}[32m   ..    ,.\n  :oo: .:oo:\n  'o\\\\o o/o:\n\u{1b}[31m :: . :: . ::\n:: :::  ::: ::\n:'  '',.''  ':\n ::: :::: :::\n ':,  ''  ,:'\n   ' ~::~ '"@,
        Distro::Raspbian => "\u{1b}[32m  `.::///+:/-.        --///+//-:``\n `+oooooooooooo:   `+oooooooooooo:\n  /oooo++//ooooo:  ooooo+//+ooooo.\n  `+ooooooo:-:oo-  +o+::/ooooooo:\n   `:oooooooo+``    `.oooooooo+-\n     `:++ooo/.        :+ooo+/.`\n        \u{1b}[31m...`  `.----.` ``..\n     .::::-``:::::::::.`-:::-`\n    -:::-`   .:::::::-`  `-:::-\n   `::.  `.--.`  `` `.---.``.::`\n       .::::::::`  -::::::::` `\n .::` .:::::::::- `::::::::::``::.\n-:::` ::::::::::.  ::::::::::.`:::-\n::::  -::::::::.   `-::::::::  ::::\n-::-   .-:::-.``....``.-::-.   -::-\n .. ``       .::::::::.     `..`..\n   -:::-`   -::::::::::`  .:::::`\n   :::::::` -::::::::::` :::::::.\n   .:::::::  -::::::::. ::::::::\n    `-:::::`   ..--.`   ::::::.\n      `...`  `...--..`  `...`\n            .::::::::::\n             `.-::::-`"@,
        Distro::RebornOs => "\u{1b}[90m\n        mMMMMMMMMM  MMMMMMMMMm\n       NM                    MN\n      MM  \u{1b}[32mdddddddd  dddddddd  \u{1b}[90mMN\n     mM  \u{1b}[32mdd                dd  \u{1b}[90mMM\n        \u{1b}[32mdd  hhhhhh   hhhhh  dd\n   \u{1b}[90mmM      \u{1b}[32mhh            hh      \u{1b}[90mMm\n  NM  \u{1b}[32mhd       \u{1b}[90mmMMMMMMd       \u{1b}[32mdh  \u{1b}[90mMN\n NM  \u{1b}[32mdd  hh   \u{1b}[90mmMMMMMMMMm   \u{1b}[32mhh  dd  \u{1b}[90mMN\nNM  \u{1b}[32mdd  hh   \u{1b}[90mmMMMMMMMMMMm   \u{1b}[32mhh  dd  \u{1b}[90mMN\n NM  \u{1b}[32mdd  hh   \u{1b}[90mmMMMMMMMMm   \u{1b}[32mhh  dd  \u{1b}[90mMN\n  NM  \u{1b}[32mhd       \u{1b}[90mmMMMMMMm       \u{1b}[32mdh  \u{1b}[90mMN\n   mM      \u{1b}[32mhh            hh      \u{1b}[90mMm\n        \u{1b}[32mdd  hhhhhh  hhhhhh  dd\n     \u{1b}[90mMM  \u{1b}[32mdd                dd  \u{1b}[90mMM\n      MM  \u{1b}[32mdddddddd  dddddddd  \u{1b}[90mMN\n       NM                    MN\n        mMMMMMMMMM  MMMMMMMMMm"@,
        Distro::RedStar => "\u{1b}[31m                    ..\n                  .oK0l\n                 :0KKKKd.\n               .xKO0KKKKd\n              ,Od' .d0000l\n             .c;.   .'''...           ..'.\n.,:cloddxxxkkkkOOOOkkkkkkkkxxxxxxxxxkkkx:\n;kOOOOOOOkxOkc'...',;;;;,,,'',;;:cllc:,.\n .okkkkd,.lko  .......',;:cllc:;,,'''''.\n   .cdo. :xd' cd:.  ..';'',,,'',,;;;,'.\n      . .ddl.;doooc'..;oc;'..';::;,'.\n        coo;.oooolllllllcccc:'.  .\n       .ool''lllllccccccc:::::;.\n       ;lll. .':cccc:::::::;;;;'\n       :lcc:'',..';::::;;;;;;;,,.\n       :cccc::::;...';;;;;,,,,,,.\n       ,::::::;;;,'.  ..',,,,'''.\n        ........          ......"@,
        Distro::Redcore => "\u{1b}[31m                 RRRRRRRRR\n               RRRRRRRRRRRRR\n        RRRRRRRRRR      RRRRR\n   RRRRRRRRRRRRRRRRRRRRRRRRRRR\n RRRRRRR  RRR         RRR RRRRRRRR\nRRRRR    RR                 RRRRRRRRR\nRRRR    RR     RRRRRRRR      RR RRRRRR\nRRRR   R    RRRRRRRRRRRRRR   RR   RRRRR\nRRRR   R  RRRRRRRRRRRRRRRRRR  R   RRRRR\nRRRR     RRRRRRRRRRRRRRRRRRR  R   RRRR\n RRR     RRRRRRRRRRRRRRRRRRRR R   RRRR\n  RRR    RRRRRRRRRRRRRRRRRRRR    RRRR\n    RR   RRRRRRRRRRRRRRRRRRR    RRR\n     RR   RRRRRRRRRRRRRRRRR    RRR\n       RR   RRRRRRRRRRRRRR   RR\n         R       RRRR      RR"@,
        Distro::RedhatOld => "\u{1b}[31m             `.-..........`\n            `////////::.`-/.\n            -: ....-////////.\n            //:-::///////////`\n     `--::: `-://////////////:\n     //////-    ``.-:///////// .`\n     `://////:-.`    :///////::///:`\n       .-/////////:---/////////////:\n          .-://////////////////////.\n\u{1b}[37m         yMN+`.-\u{1b}[31m::///////////////-`\n\u{1b}[37m      .-`:NMMNMs`  `..-------..`\n       MN+/mMMMMMhoooyysshsss\nMMM    MMMMMMMMMMMMMMyyddMMM+\n MMMM   MMMMMMMMMMMMMNdyNMMh`     hyhMMM\n  MMMMMMMMMMMMMMMMyoNNNMMM+.   MMMMMMMM\n   MMNMMMNNMMMMMNM+ mhsMNyyyyMNMMMMsMM"@,
        Distro::Redhat => "\u{1b}[31m           .MMM..:MMMMMMM\n          MMMMMMMMMMMMMMMMMM\n          MMMMMMMMMMMMMMMMMMMM.\n         MMMMMMMMMMMMMMMMMMMMMM\n        ,MMMMMMMMMMMMMMMMMMMMMM:\n        MMMMMMMMMMMMMMMMMMMMMMMM\n  .MMMM'  MMMMMMMMMMMMMMMMMMMMMM\n MMMMMM    `MMMMMMMMMMMMMMMMMMMM.\nMMMMMMMM      MMMMMMMMMMMMMMMMMM .\nMMMMMMMMM.       `MMMMMMMMMMMMM' MM.\nMMMMMMMMMMM.                     MMMM\n`MMMMMMMMMMMMM.                 ,MMMMM.\n `MMMMMMMMMMMMMMMMM.          ,MMMMMMMM.\n    MMMMMMMMMMMMMMMMMMMMMMMMMMMMMMMMMMMM\n      MMMMMMMMMMMMMMMMMMMMMMMMMMMMMMMMM:\n         MMMMMMMMMMMMMMMMMMMMMMMMMMMMMM\n            `MMMMMMMMMMMMMMMMMMMMMMMM:\n                ``MMMMMMMMMMMMMMMMM'"@,
        Distro::RefractedDevuan => "\u{1b}[37m                             A\n                            VW\n                           VVW\\\\\n                         .yWWW\\\\\n ,;,,u,;yy;;v;uyyyyyyy  ,WWWWW^\n    *WWWWWWWWWWWWWWWW/  $VWWWWw      ,\n        ^*%WWWWWWVWWX  $WWWW**    ,yy\n        ,    \"**WWW/' **'   ,yy/WWW*`\n       &WWWWwy    `*`  <,ywWW%VWWW*\n     yWWWWWWWWWW*    .,   \"**WW%W\n   ,&WWWWWM*\"`  ,y/  &WWWww   ^*\n  XWWX*^   ,yWWWW09 .WWWWWWWWwy,\n *`        &WWWWWM  WWWWWWWWWWWWWww,\n           (WWWWW` /#####WWW***********\n           ^WWWW\n            VWW\n            Wh.\n            V/"@,
        Distro::Regata => "\u{1b}[37m            ddhso+++++osydd\n        dho/.`hh\u{1b}[31m.:/+/:.\u{1b}[37mhhh`:+yd\n      do-hhhhhh\u{1b}[31m/sssssss+`\u{1b}[37mhhhhh./yd\n    h/`hhhhhhh\u{1b}[31m-sssssssss:\u{1b}[37mhhhhhhhh-yd\n  do`hhhhhhhhh\u{1b}[31m`ossssssso.\u{1b}[37mhhhhhhhhhh/d\n d/hhhhhhhhhhhh\u{1b}[31m`/ossso/.\u{1b}[37mhhhhhhhhhhhh.h\n /hhhhhhhhhhhh\u{1b}[34m`-/osyso/-`\u{1b}[37mhhhhhhhhhhhh.h\nshh\u{1b}[35m-/ooo+-\u{1b}[37mhhh\u{1b}[34m:syyso+osyys/`\u{1b}[37mhhh\u{1b}[33m`+oo`\u{1b}[37mhhh/\nh\u{1b}[35m`ohhhhhhho`\u{1b}[34m+yyo.\u{1b}[37mhhhhh\u{1b}[34m.+yyo`\u{1b}[33m.sssssss.\u{1b}[37mh`h\ns\u{1b}[35m:hhhhhhhhho\u{1b}[34myys`\u{1b}[37mhhhhhhh\u{1b}[34m.oyy/\u{1b}[33mossssssso-\u{1b}[37mhs\ns\u{1b}[35m.yhhhhhhhy/\u{1b}[34myys`\u{1b}[37mhhhhhhh\u{1b}[34m.oyy/\u{1b}[33mossssssso-\u{1b}[37mhs\nhh\u{1b}[35m./syyys+.\u{1b}[37m \u{1b}[34m+yy+.\u{1b}[37mhhhhh\u{1b}[34m.+yyo`\u{1b}[33m.ossssso/\u{1b}[37mh`h\nshhh\u{1b}[35m``.`\u{1b}[37mhhh\u{1b}[34m`/syyso++oyys/`\u{1b}[37mhhh\u{1b}[33m`+++-`\u{1b}[37mhh:h\nd/hhhhhhhhhhhh\u{1b}[34m`-/osyso+-`\u{1b}[37mhhhhhhhhhhhh.h\n d/hhhhhhhhhhhh\u{1b}[32m`/ossso/.\u{1b}[37mhhhhhhhhhhhh.h\n  do`hhhhhhhhh\u{1b}[32m`ossssssso.\u{1b}[37mhhhhhhhhhh:h\n    h/`hhhhhhh\u{1b}[32m-sssssssss:\u{1b}[37mhhhhhhhh-yd\n      h+.hhhhhh\u{1b}[32m+sssssss+\u{1b}[37mhhhhhh`/yd\n        dho:.hhh\u{1b}[32m.:+++/.\u{1b}[37mhhh`-+yd\n            ddhso+++++osyhd"@,
        Distro::Regolith => "\u{1b}[31m\n                 ``....```\n            `.:/++++++/::-.`\n          -/+++++++:.`\n        -++++++++:`\n      `/++++++++-\n     `/++++++++.                    -/+/\n     /++++++++/             ``   .:+++:.\n    -+++++++++/          ./++++:+++/-`\n    :+++++++++/         `+++++++/-`\n    :++++++++++`      .-/+++++++`\n   `:++++++++++/``.-/++++:-:::-`      `\n `:+++++++++++++++++/:.`            ./`\n:++/-:+++++++++/:-..              -/+.\n+++++++++/::-...:/+++/-..````..-/+++.\n`......``.::/+++++++++++++++++++++/.\n         -/+++++++++++++++++++++/.\n           .:/+++++++++++++++/-`\n              `.-:://////:-."@,
        Distro::RockySmall => "\u{1b}[32m    `-/+++++++++/-.`\n `-+++++++++++++++++-`\n.+++++++++++++++++++++.\n-+++++++++++++++++++++++.\n+++++++++++++++/-/+++++++\n+++++++++++++/.   ./+++++\n+++++++++++:.       ./+++\n+++++++++:`   `:/:`   .:/\n-++++++:`   .:+++++:`\n .+++-`   ./+++++++++:`\n  `-`   ./+++++++++++-\n       -+++++++++:-.`"@,
        Distro::Rosa => "\u{1b}[34m           ROSAROSAROSAROSAR\n        ROSA               AROS\n      ROS   SAROSAROSAROSAR   AROS\n    RO   ROSAROSAROSAROSAROSAR   RO\n  ARO  AROSAROSAROSARO      AROS  ROS\n ARO  ROSAROS         OSAR   ROSA  ROS\n RO  AROSA   ROSAROSAROSA    ROSAR  RO\nRO  ROSAR  ROSAROSAROSAR  R  ROSARO  RO\nRO  ROSA  AROSAROSAROSA  AR  ROSARO  AR\nRO AROS  ROSAROSAROSA   ROS  AROSARO AR\nRO AROS  ROSAROSARO   ROSARO  ROSARO AR\nRO  ROS  AROSAROS   ROSAROSA AROSAR  AR\nRO  ROSA  ROS     ROSAROSAR  ROSARO  RO\n RO  ROS     AROSAROSAROSA  ROSARO  AR\n ARO  ROSA   ROSAROSAROS   AROSAR  ARO\n  ARO  OROSA      R      ROSAROS  ROS\n    RO   AROSAROS   AROSAROSAR   RO\n     AROS   AROSAROSAROSARO   AROS\n        ROSA               SARO\n           ROSAROSAROSAROSAR"@,
        Distro::Sabotage => "\u{1b}[37m .|'''.|      |     '||''|.    ..|''||\n ||..  '     |||     ||   ||  .|'    ||\n  ''|||.    |  ||    ||'''|.  ||      ||\n.     '||  .''''|.   ||    || '|.     ||\n|'....|'  .|.  .||. .||...|'   ''|...|'\n\n|''||''|     |      ..|'''.|  '||''''|\n   ||       |||    .|'     '   ||  .\n   ||      |  ||   ||    ....  ||''|\n   ||     .''''|.  '|.    ||   ||\n  .||.   .|.  .||.  ''|...'|  .||.....|"@,
        Distro::Sabayon => "\u{1b}[34m            ...........\n         ..             ..\n      ..                   ..\n    ..           \u{1b}[37mo           \u{1b}[34m..\n  ..            \u{1b}[37m:W'            \u{1b}[34m..\n ..             \u{1b}[37m.d.             \u{1b}[34m..\n:.             \u{1b}[37m.KNO              \u{1b}[34m.:\n:.             \u{1b}[37mcNNN.             \u{1b}[34m.:\n:              \u{1b}[37mdXXX,              \u{1b}[34m:\n:   \u{1b}[37m.          dXXX,       .cd,   \u{1b}[34m:\n:   \u{1b}[37m'kc ..     dKKK.    ,ll;:'    \u{1b}[34m:\n:     \u{1b}[37m.xkkxc;..dkkkc',cxkkl       \u{1b}[34m:\n:.     \u{1b}[37m.,cdddddddddddddo:.       \u{1b}[34m.:\n ..         \u{1b}[37m:lllllll:           \u{1b}[34m..\n   ..         \u{1b}[37m',,,,,          \u{1b}[34m..\n     ..                     ..\n        ..               ..\n          ..............."@,
        Distro::Sailfish => "\u{1b}[34m                 _a@b\n              _#b (b\n            _@@   @_         _,\n          _#^@ _#*^^*gg,aa@^^\n          #- @@^  _a@^^\n          @_  *g#b\n          ^@_   ^@_\n            ^@_   @\n             @(b (b\n            #b(b#^\n          _@_#@^\n       _a@a*^\n   ,a@*^"@,
        Distro::SalentOs => "\u{1b}[32m                 ``..``\n        .-:+oshdNMMMMMMNdhyo+:-.`\n  -oydmMMMMMMMMMMMMMMMMMMMMMMMMMMNdhs/\n\u{1b}[37m +hdddm\u{1b}[32mNMMMMMMMMMMMMMMMMMMMMMMMMN\u{1b}[37mmdddh+`\n\u{1b}[31m`MMMMMN\u{1b}[37mmdddddm\u{1b}[32mMMMMMMMMMMMM\u{1b}[37mmdddddm\u{1b}[33mNMMMMM-\n\u{1b}[31m mMMMMMMMMMMMN\u{1b}[37mddddhyyhhddd\u{1b}[33mNMMMMMMMMMMMM`\n\u{1b}[31m dMMMMMMMMMMMMMMMMM\u{1b}[37moo\u{1b}[33mMMMMMMMMMMMMMMMMMN`\n\u{1b}[31m yMMMMMMMMMMMMMMMMM\u{1b}[37mhh\u{1b}[33mMMMMMMMMMMMMMMMMMd\n\u{1b}[31m +MMMMMMMMMMMMMMMMM\u{1b}[37mhh\u{1b}[33mMMMMMMMMMMMMMMMMMy\n\u{1b}[31m :MMMMMMMMMMMMMMMMM\u{1b}[37mhh\u{1b}[33mMMMMMMMMMMMMMMMMMo\n\u{1b}[31m .MMMMMMMMMMMMMMMMM\u{1b}[37mhh\u{1b}[33mMMMMMMMMMMMMMMMMM/\n\u{1b}[31m `NMMMMMMMMMMMMMMMM\u{1b}[37mhh\u{1b}[33mMMMMMMMMMMMMMMMMM-\n\u{1b}[31m  mMMMMMMMMMMMMMMMM\u{1b}[37mhh\u{1b}[33mMMMMMMMMMMMMMMMMN`\n\u{1b}[31m  hMMMMMMMMMMMMMMMM\u{1b}[37mhh\u{1b}[33mMMMMMMMMMMMMMMMMm\n\u{1b}[31m  /MMMMMMMMMMMMMMMM\u{1b}[37mhh\u{1b}[33mMMMMMMMMMMMMMMMMy\n\u{1b}[31m   .+hMMMMMMMMMMMMM\u{1b}[37mhh\u{1b}[33mMMMMMMMMMMMMMms:\n\u{1b}[31m      `:smMMMMMMMMM\u{1b}[37mhh\u{1b}[33mMMMMMMMMMNh+.\n\u{1b}[31m          .+hMMMMMM\u{1b}[37mhh\u{1b}[33mMMMMMMdo:\n\u{1b}[31m             `:smMM\u{1b}[37myy\u{1b}[33mMMNy/`\n                 \u{1b}[31m.- \u{1b}[37m`\u{1b}[33m:."@,
        Distro::Scientific => "\u{1b}[34m                 =/;;/-\n                +:    //\n               /;      /;\n              -X        H.\n.//;;;:;;-,   X=        :+   .-;:=;:;#;.\nM-       ,=;;;#:,      ,:#;;:=,       ,@\n:#           :#.=/++++/=.$=           #=\n ,#;         #/:+/;,,/++:+/         ;+.\n   ,+/.    ,;@+,        ,#H;,    ,/+,\n      ;+;;/= @.  \u{1b}[31m.H\u{1b}[37m#\u{1b}[31m#X   \u{1b}[34m-X :///+;\n      ;+=;;;.@,  \u{1b}[37m.X\u{1b}[31mM\u{1b}[37m@$.  \u{1b}[34m=X.//;=#/.\n   ,;:      :@#=        =$H:     .+#-\n ,#=         #;-///==///-//         =#,\n;+           :#-;;;:;;;;-X-           +:\n@-      .-;;;;M-        =M/;;;-.      -X\n :;;::;;-.    #-        :+    ,-;;-;:==\n              ,X        H.\n               ;/      #=\n                //    +;\n                 '////'"@,
        Distro::Septor => "\u{1b}[34mssssssssssssssssssssssssssssssssssssssss\nssssssssssssssssssssssssssssssssssssssss\nssssssssssssssssssssssssssssssssssssssss\nssssssssssssssssssssssssssssssssssssssss\nssssssssss\u{1b}[37m;okOOOOOOOOOOOOOOko;\u{1b}[34mssssssssss\nsssssssss\u{1b}[37moNWWWWWWWWWWWWWWWWWWNo\u{1b}[34msssssssss\nssssssss\u{1b}[37m:WWWWWWWWWWWWWWWWWWWWWW:\u{1b}[34mssssssss\nssssssss\u{1b}[37mlWWWWWk\u{1b}[34mssssssssss\u{1b}[37mlddddd:\u{1b}[34mssssssss\nssssssss\u{1b}[37mcWWWWWNKKKKKKKKKKKKOx:\u{1b}[34mssssssssss\n\u{1b}[34myy\u{1b}[34msssssss\u{1b}[37mOWWWWWWWWWWWWWWWWWWWWx\u{1b}[34msssssss\u{1b}[34myy\nyyyyyyyyyy\u{1b}[37m:kKNNNNNNNNNNNNWWWWWW:\u{1b}[34myyyyyyyy\nyyyyyyyy\u{1b}[37msccccc;\u{1b}[34myyyyyyyyyy\u{1b}[37mkWWWWW:\u{1b}[34myyyyyyyy\nyyyyyyyy\u{1b}[37m:WWWWWWNNNNNNNNNNWWWWWW;\u{1b}[34myyyyyyyy\nyyyyyyyy\u{1b}[37m.dWWWWWWWWWWWWWWWWWWWNd\u{1b}[34myyyyyyyyy\nyyyyyyyyyy\u{1b}[37msdO0KKKKKKKKKKKK0Od;\u{1b}[34myyyyyyyyyy\nyyyyyyyyyyyyyyyyyyyyyyyyyyyyyyyyyyyyyyyy\nyyyyyyyyyyyyyyyyyyyyyyyyyyyyyyyyyyyyyyyy\nyyyyyyyyyyyyyyyyyyyyyyyyyyyyyyyyyyyyyyyy\nyyyyyyyyyyyyyyyyyyyyyyyyyyyyyyyyyyyyyyyy\nyyyyyyyyyyyyyyyyyyyyyyyyyyyyyyyyyyyyyyyy"@,
        Distro::Serene => "\u{1b}[36m              __---''''''---__\n          .                      .\n        :                          :\n      -                       _______----_-\n     s               __----'''     __----\n __h_            _-'           _-'     h\n '-._''--.._    ;           _-'         y\n  :  ''-._  '-._/        _-'             :\n  y       ':_       _--''                y\n  m    .--'' '-._.;'                     m\n  m   :        :                         m\n  y    '.._     '-__                     y\n  :        '--._    '''----___           :\n   y            '--._         ''-- _    y\n    h                '--._          :  h\n     s                  __';         vs\n      -         __..--''             -\n        :_..--''                   :\n          .                     _ .\n            `''---______---''-``"@,
        Distro::SharkLinux => "\u{1b}[34m                              `:shd/\n                          `:yNMMMMs\n                       `-smMMMMMMN.\n                     .+dNMMMMMMMMs\n                   .smNNMMMMMMMMm`\n                 .sNNNNNNNMMMMMM/\n               `omNNNNNNNMMMMMMm\n              /dNNNNNNNNMMMMMMM+\n            .yNNNNNNNNNMMMMMMMN`\n           +mNNNNNNNNNMMMMMMMMh\n         .hNNNNNNNNNNMMMMMMMMMs\n        +mMNNNNNNNNMMMMMMMMMMMs\n      .hNMMNNNNMMMMMMMMMMMMMMMd\n    .oNNNNNNNNNNMMMMMMMMMMMMMMMo\n `:+syyssoo++++ooooossssssssssso:"@,
        Distro::SlackwareSmall => "\u{1b}[34m   ________\n  /  ______|\n  | |______\n  \\\\______  \\\\\n   ______| |\n| |________/\n|____________"@,
        Distro::Slackware => "\u{1b}[34m                  :::::::\n            :::::::::::::::::::\n         :::::::::::::::::::::::::\n       ::::::::\u{1b}[37mcllcccccllllllll\u{1b}[34m::::::\n    :::::::::\u{1b}[37mlc               dc\u{1b}[34m:::::::\n   ::::::::\u{1b}[37mcl   clllccllll    oc\u{1b}[34m:::::::::\n  :::::::::\u{1b}[37mo   lc\u{1b}[34m::::::::\u{1b}[37mco   oc\u{1b}[34m::::::::::\n ::::::::::\u{1b}[37mo    cccclc\u{1b}[34m:::::\u{1b}[37mclcc\u{1b}[34m::::::::::::\n :::::::::::\u{1b}[37mlc        cclccclc\u{1b}[34m:::::::::::::\n::::::::::::::\u{1b}[37mlcclcc          lc\u{1b}[34m::::::::::::\n::::::::::\u{1b}[37mcclcc\u{1b}[34m:::::\u{1b}[37mlccclc     oc\u{1b}[34m:::::::::::\n::::::::::\u{1b}[37mo    l\u{1b}[34m::::::::::\u{1b}[37ml    lc\u{1b}[34m:::::::::::\n :::::\u{1b}[37mcll\u{1b}[34m:\u{1b}[37mo     clcllcccll     o\u{1b}[34m:::::::::::\n :::::\u{1b}[37mocc\u{1b}[34m:\u{1b}[37mo                  clc\u{1b}[34m:::::::::::\n  ::::\u{1b}[37mocl\u{1b}[34m:\u{1b}[37mccslclccclclccclclc\u{1b}[34m:::::::::::::\n   :::\u{1b}[37moclcccccccccccccllllllllllllll\u{1b}[34m:::::\n    ::\u{1b}[37mlcc1lcccccccccccccccccccccccco\u{1b}[34m::::\n      ::::::::::::::::::::::::::::::::\n        ::::::::::::::::::::::::::::\n           ::::::::::::::::::::::\n                ::::::::::::"@,
        Distro::SliTaz => "\u{1b}[33m        @    @(               @\n      @@   @@                  @    @/\n     @@   @@                   @@   @@\n    @@  %@@                     @@   @@\n   @@  %@@@       @@@@@.       @@@@  @@\n  @@@    @@@@    @@@@@@@    &@@@    @@@\n   @@@@@@@ %@@@@@@@@@@@@ &@@@% @@@@@@@/\n       ,@@@@@@@@@@@@@@@@@@@@@@@@@\n  .@@@@@@@@@@@@@@@@@@@@@@@@@@@@@@@@@/\n@@@@@@.  @@@@@@@@@@@@@@@@@@@@@  /@@@@@@\n@@    @@@@@  @@@@@@@@@@@@,  @@@@@   @@@\n@@ @@@@.    @@@@@@@@@@@@@%    #@@@@ @@.\n@@ ,@@      @@@@@@@@@@@@@      @@@  @@\n@   @@.     @@@@@@@@@@@@@     @@@  *@\n@    @@     @@@@@@@@@@@@      @@   @\n      @      @@@@@@@@@.     #@\n       @      ,@@@@@       @"@,
        Distro::SmartOs => "\u{1b}[36myyyyyyyyyyyyyyyyyyyyyyyyyyyyyyyyyyy\nyyyyyyyyyyyyyyyyyyyyyyyyyyyyyyyyyyy\nyyyys             oyyyyyyyyyyyyyyyy\nyyyys  yyyyyyyyy  oyyyyyyyyyyyyyyyy\nyyyys  yyyyyyyyy  oyyyyyyyyyyyyyyyy\nyyyys  yyyyyyyyy  oyyyyyyyyyyyyyyyy\nyyyys  yyyyyyyyy  oyyyyyyyyyyyyyyyy\nyyyys  yyyyyyyyyyyyyyyyyyyyyyyyyyyy\nyyyyy                         syyyy\nyyyyyyyyyyyyyyyyyyyyyyyyyyyy  syyyy\nyyyyyyyyyyyyyyyy  syyyyyyyyy  syyyy\nyyyyyyyyyyyyyyyy  oyyyyyyyyy  syyyy\nyyyyyyyyyyyyyyyy  oyyyyyyyyy  syyyy\nyyyyyyyyyyyyyyyy  syyyyyyyyy  syyyy\nyyyyyyyyyyyyyyyy              yyyyy\nyyyyyyyyyyyyyyyyyyyyyyyyyyyyyyyyyyy\nyyyyyyyyyyyyyyyyyyyyyyyyyyyyyyyyyyy"@,
        Distro::Solus => "\u{1b}[37m            -```````````\n          `-+/------------.`\n       .---:mNo---------------.\n     .-----yMMMy:---------------.\n   `------oMMMMMm/----------------`\n  .------/MMMMMMMN+----------------.\n .------/NMMMMMMMMm-+/--------------.\n`------/NMMMMMMMMMN-:mh/-------------`\n.-----/NMMMMMMMMMMM:-+MMd//oso/:-----.\n-----/NMMMMMMMMMMMM+--mMMMh::smMmyo:--\n----+NMMMMMMMMMMMMMo--yMMMMNo-:yMMMMd/.\n.--oMMMMMMMMMMMMMMMy--yMMMMMMh:-yMMMy-`\n`-sMMMMMMMMMMMMMMMMh--dMMMMMMMd:/Ny+y.\n`-/+osyhhdmmNNMMMMMm-/MMMMMMMmh+/ohm+\n  .------------:://+-/++++++\u{1b}[34moshddys:\n   -hhhhyyyyyyyyyyyhhhhddddhysssso-\n    `:ossssssyysssssssssssssssso:`\n      `:+ssssssssssssssssssss+-\n         `-/+ssssssssssso+/-`\n              `.-----..`"@,
        Distro::SourceMage => "\u{1b}[37m       :ymNMNho.\n.+sdmNMMMMMMMMMMy`\n.-::/yMMMMMMMMMMMm-\n      sMMMMMMMMMMMm/\n     /NMMMMMMMMMMMMMm:\n    .MMMMMMMMMMMMMMMMM:\n    `MMMMMMMMMMMMMMMMMN.\n     NMMMMMMMMMMMMMMMMMd\n     mMMMMMMMMMMMMMMMMMMo\n     hhMMMMMMMMMMMMMMMMMM.\n     .`/MMMMMMMMMMMMMMMMMs\n        :mMMMMMMMMMMMMMMMN`\n         `sMMMMMMMMMMMMMMM+\n           /NMMMMMMMMMMMMMN`\n             oMMMMMMMMMMMMM+\n          ./sd.-hMMMMMMMMmmN`\n      ./+oyyyh- `MMMMMMMMMmNh\n                 sMMMMMMMMMmmo\n                 `NMMMMMMMMMd:\n                  -dMMMMMMMMMo\n                    -shmNMMms."@,
        Distro::Sparky => "\u{1b}[31m\n           .            `-:-`\n          .o`       .-///-`\n         `oo`    .:/++:.\n         os+`  -/+++:` ``.........```\n        /ys+`./+++/-.-::::::----......``\n       `syyo`++o+--::::-::/+++/-``\n       -yyy+.+o+`:/:-:sdmmmmmmmmdy+-`\n::-`   :yyy/-oo.-+/`ymho++++++oyhdmdy/`\n`/yy+-`.syyo`+o..o--h..osyhhddhs+//osyy/`\n  -ydhs+-oyy/.+o.-: ` `  :/::+ydhy+```-os-\n   .sdddy::syo--/:.     `.:dy+-ohhho    ./:\n     :yddds/:+oo+//:-`- /+ +hy+.shhy:     ``\n      `:ydmmdysooooooo-.ss`/yss--oyyo\n        `./ossyyyyo+:-/oo:.osso- .oys\n       ``..-------::////.-oooo/   :so\n    `...----::::::::--.`/oooo:    .o:\n           ```````     ++o+:`     `:`\n                     ./+/-`        `\n                   `-:-.\n                   ``"@,
        Distro::Star => "\u{1b}[37m                   ./\n                  `yy-\n                 `y.`y`\n    ``           s-  .y            `\n    +h//:..`    +/    /o    ``..:/so\n     /o``.-::/:/+      o/://::-.`+o`\n      :s`     `.        .`     `s/\n       .y.                    .s-\n        `y-                  :s`\n      .-//.                  /+:.\n   .:/:.                       .:/:.\n-+o:.                             .:+:.\n-///++///:::`              .-::::///+so-\n       ``..o/              d-....```\n           s.     `/.      d\n           h    .+o-+o-    h.\n           h  -o/`   `/o:  s:\n          -s/o:`       `:o/+/\n          /s-             -yo"@,
        Distro::SteamOs => "\u{1b}[35m              .,,,,.\n        .,'onNMMMMMNNnn',.\n     .'oNMANKMMMMMMMMMMMNNn'.\n   .'ANMMMMMMMXKNNWWWPFFWNNMNn.\n  ;NNMMMMMMMMMMNWW'' ,.., 'WMMM,\n ;NMMMMV+##+VNWWW' .+;'':+, 'WMW,\n,VNNWP+\u{1b}[37m######\u{1b}[35m+WW,  \u{1b}[37m+:    \u{1b}[35m:+, +MMM,\n'\u{1b}[37m+#############,   +.    ,+' \u{1b}[35m+NMMM\n\u{1b}[37m  '*#########*'     '*,,*' \u{1b}[35m.+NMMMM.\n\u{1b}[37m     `'*###*'          ,.,;###\u{1b}[35m+WNM,\n\u{1b}[37m         .,;;,      .;##########\u{1b}[35m+W\n\u{1b}[37m,',.         ';  ,+##############'\n '###+. :,. .,; ,###############'\n  '####.. `'' .,###############'\n    '#####+++################'\n      '*##################*'\n         ''*##########*''\n              ''''''"@,
        Distro::SunosSmall => "\u{1b}[33m       .   .;   .\n   .   :;  ::  ;:   .\n   .;. ..      .. .;.\n..  ..             ..  ..\n .;,                 ,;."@,
        Distro::OpenSuseLeap => "\u{1b}[37m                 `-++:`\n               ./oooooo/-\n            `:oooooooooooo:.\n          -+oooooooooooooooo+-`\n       ./oooooooooooooooooooooo/-\n      :oooooooooooooooooooooooooo:\n    `  `-+oooooooooooooooooooo/-   `\n `:oo/-   .:ooooooooooooooo+:`  `-+oo/.\n`/oooooo:.   -/oooooooooo/.   ./oooooo/.\n  `:+ooooo+-`  `:+oooo+-   `:oooooo+:`\n     .:oooooo/.   .::`   -+oooooo/.\n        -/oooooo:.    ./oooooo+-\n          `:+ooooo+-:+oooooo:`\n             ./oooooooooo/.\n                -/oooo+:`\n                  `:/."@,
        Distro::T2 => "\u{1b}[34m\nTTTTTTTTTT\n    tt   \u{1b}[37m222\u{1b}[34m\n    tt  \u{1b}[37m2   2\u{1b}[34m\n    tt     \u{1b}[37m2\u{1b}[34m\n    tt    \u{1b}[37m2\u{1b}[34m\n    tt  \u{1b}[37m22222\u{1b}[34m"@,
        Distro::OpenSuseTumbleweed => "\u{1b}[37m                                     ......\n     .,cdxxxoc,.               .:kKMMMNWMMMNk:.\n    cKMMN0OOOKWMMXo. ;        ;0MWk:.      .:OMMk.\n  ;WMK;.       .lKMMNM,     :NMK,             .OMW;\n cMW;            'WMMMN   ,XMK,                 oMM'\n.MMc               ..;l. xMN:                    KM0\n'MM.                   'NMO                      oMM\n.MM,                 .kMMl                       xMN\n KM0               .kMM0. .dl:,..               .WMd\n .XM0.           ,OMMK,    OMMMK.              .XMK\n   oWMO:.    .;xNMMk,       NNNMKl.          .xWMx\n     :ONMMNXMMMKx;          .  ,xNMWKkxllox0NMWk,\n         .....                    .:dOOXXKOxl,"@,
        Distro::OpensuseSmall => "\u{1b}[32m  _______\n__|   __ \\\\\n     / .\\\\ \\\\\n     \\\\__/ |\n   _______|\n   \\\\_______\n__________/"@,
        Distro::OpenSuse => "\u{1b}[37m           .;ldkO0000Okdl;.\n       .;d00xl:^''''''^:ok00d;.\n     .d00l'                'o00d.\n   .d0Kd'\u{1b}[32m  Okxol:;,.          \u{1b}[37m:O0d.\n  .OK\u{1b}[32mKKK0kOKKKKKKKKKKOxo:,      \u{1b}[37mlKO.\n ,0K\u{1b}[32mKKKKKKKKKKKKKKK0P^\u{1b}[37m,,,\u{1b}[32m^dx:\u{1b}[37m    ;00,\n.OK\u{1b}[32mKKKKKKKKKKKKKKKk'\u{1b}[37m.oOPPb.\u{1b}[32m'0k.\u{1b}[37m   cKO.\n:KK\u{1b}[32mKKKKKKKKKKKKKKK: \u{1b}[37mkKx..dd \u{1b}[32mlKd\u{1b}[37m   'OK:\ndKK\u{1b}[32mKKKKKKKKKOx0KKKd \u{1b}[37m^0KKKO' \u{1b}[32mkKKc\u{1b}[37m   dKd\ndKK\u{1b}[32mKKKKKKKKKK;.;oOKx,..\u{1b}[37m^\u{1b}[32m..;kKKK0.\u{1b}[37m  dKd\n:KK\u{1b}[32mKKKKKKKKKK0o;...^cdxxOK0O/^^'  \u{1b}[37m.0K:\n kKK\u{1b}[32mKKKKKKKKKKKKK0x;,,......,;od  \u{1b}[37mlKk\n '0K\u{1b}[32mKKKKKKKKKKKKKKKKKKKK00KKOo^  \u{1b}[37mc00'\n  'kK\u{1b}[32mKKOxddxkOO00000Okxoc;''   \u{1b}[37m.dKk'\n    l0Ko.                    .c00l'\n     'l0Kk:.              .;xK0l'\n        'lkK0xl:;,,,,;:ldO0kl'\n            '^:ldxkkkkxdl:^'"@,
        Distro::SwagArch => "\u{1b}[37m        .;ldkOKXXNNNNXXK0Oxoc,.\n   ,lkXMMNK0OkkxkkOKWMMMMMMMMMM;\n 'K0xo  ..,;:c:.     `'lKMMMMM0\n     .lONMMMMMM'         `lNMk'\n\u{1b}[37m    ;WMMMMMMMMMO.              \u{1b}[34m....::...\n\u{1b}[37m    OMMMMMMMMMMMMKl.       \u{1b}[34m.,;;;;;ccccccc,\n\u{1b}[37m    `0MMMMMMMMMMMMMM0:         \u{1b}[34m.. .ccccccc.\n\u{1b}[37m      'kWMMMMMMMMMMMMMNo.   \u{1b}[34m.,:'  .ccccccc.\n\u{1b}[37m        `c0MMMMMMMMMMMMMN,\u{1b}[34m,:c;    :cccccc:\n\u{1b}[37m ckl.      `lXMMMMMMMMMX\u{1b}[34mocccc:.. ;ccccccc.\n\u{1b}[37mdMMMMXd,     `OMMMMMMWk\u{1b}[34mccc;:''` ,ccccccc:\n\u{1b}[37mXMMMMMMMWKkxxOWMMMMMNo\u{1b}[34mccc;     .cccccccc.\n\u{1b}[37m `':ldxO0KXXXXXK0Okdo\u{1b}[34mcccc.     :cccccccc.\n                    :ccc:'     `cccccccc:,\n                                   ''"@,
        Distro::Tails => "\u{1b}[35m      ``\n  ./yhNh\nsyy/Nshh         `:o/\nN:dsNshh  █   `ohNMMd\nN-/+Nshh      `yMMMMd\nN-yhMshh       yMMMMd\nN-s:hshh  █    yMMMMd so//.\nN-oyNsyh       yMMMMd d  Mms.\nN:hohhhd:.     yMMMMd  syMMM+\nNsyh+-..+y+-   yMMMMd   :mMM+\n+hy-      -ss/`yMMMM     `+d+\n  :sy/.     ./yNMMMMm      ``\n    .+ys- `:+hNMMMMMMy/`\n      `hNmmMMMMMMMMMMMMdo.\n       dMMMMMMMMMMMMMMMMMNh:\n       +hMMMMMMMMMMMMMMMMMmy.\n         -oNMMMMMMMMMMmy+.`\n           `:yNMMMds/.`\n              .//`"@,
        Distro::Trisquel => "\u{1b}[34m                         ▄▄▄▄▄▄\n                      ▄█████████▄\n      ▄▄▄▄▄▄         ████▀   ▀████\n   ▄██████████▄     ████▀   ▄▄ ▀███\n ▄███▀▀   ▀▀████     ███▄   ▄█   ███\n▄███   ▄▄▄   ████▄    ▀██████   ▄███\n███   █▀▀██▄  █████▄     ▀▀   ▄████\n▀███      ███  ███████▄▄  ▄▄██████\n\u{1b}[34m ▀███▄   ▄███  █████████████\u{1b}[36m████▀\n\u{1b}[34m  ▀█████████    ███████\u{1b}[36m███▀▀▀\n    ▀▀███▀▀     ██████▀▀\n               ██████▀   ▄▄▄▄\n              █████▀   ████████\n              █████   ███▀  ▀███\n               ████▄   ██▄▄▄  ███\n                █████▄   ▀▀  ▄██\n                  ██████▄▄▄████\n                     ▀▀█████▀▀"@,
        Distro::UbuntuCinnamon => "\u{1b}[31m            .-/+oooooooo+/-.\n        `:+oooooooooooooooooo+:`\n      -+oooooooooooooooooooooooo+-\n    .ooooooooooooooooooo\u{1b}[37m:ohNd\u{1b}[31moooooo.\n   /oooooooooooo\u{1b}[37m:/+oo++:/ohNd\u{1b}[31mooooooo/\n  +oooooooooo\u{1b}[37m:osNdhyyhdNNh+:+\u{1b}[31moooooooo+\n /ooooooooo\u{1b}[37m/dN/\u{1b}[31mooooooooo\u{1b}[37m/sNNo\u{1b}[31mooooooooo/\n.ooooooooo\u{1b}[37moMd:\u{1b}[31moooooooooooo\u{1b}[37m:yMy\u{1b}[31mooooooooo.\n+ooooo\u{1b}[37m:+o/Md\u{1b}[31moooooo\u{1b}[37m:sm/\u{1b}[31moo/ooo\u{1b}[37myMo\u{1b}[31moooooooo+\nooo\u{1b}[37m:sdMdosMo\u{1b}[31mooooo\u{1b}[37moNMd\u{1b}[31m//\u{1b}[37mdMd+\u{1b}[31mo\u{1b}[37m:so\u{1b}[31mooooooooo\noooo\u{1b}[37m+ymdosMo\u{1b}[31mooo\u{1b}[37m+mMm\u{1b}[31m+/\u{1b}[37mhMMMMMh+hs\u{1b}[31mooooooooo\n+oooooo\u{1b}[37m:\u{1b}[31m:\u{1b}[37m/Nm:\u{1b}[31m/\u{1b}[37mhMNo\u{1b}[31m:y\u{1b}[37mMMMMMMMMMM+\u{1b}[31moooooooo+\n.ooooooooo\u{1b}[37m/NNMNy\u{1b}[31m:o\u{1b}[37mNMMMMMMMMMMo\u{1b}[31mooooooooo.\n/oooooooooo\u{1b}[37m:yh:\u{1b}[31m+m\u{1b}[37mMMMMMMMMMMd/\u{1b}[31mooooooooo/\n  +oooooooooo\u{1b}[37m+\u{1b}[31m/h\u{1b}[37mmMMMMMMNds//o\u{1b}[31moooooooo+\n   /oooooooooooo\u{1b}[37m+:////:o/ymMd\u{1b}[31mooooooo/\n    .oooooooooooooooooooo\u{1b}[37m/sdh\u{1b}[31moooooo.\n      -+oooooooooooooooooooooooo+-\n        `:+oooooooooooooooooo+:`\n            .-/+oooooooo+/-."@,
        Distro::UbuntuBudgie => "\u{1b}[37m           ./oydmMMMMMMmdyo/.\n        :smMMMMMMMMMMMhs+:++yhs:\n     `omMMMMMMMMMMMN+`        `odo`\n    /NMMMMMMMMMMMMN-            `sN/\n  `hMMMMmhhmMMMMMMh               sMh`\n .mMmo-     /yMMMMm`              `MMm.\n mN/       yMMMMMMMd-              MMMm\noN-        oMMMMMMMMMms+//+o+:    :MMMMo\nm/          +NMMMMMMMMMMMMMMMMm. :NMMMMm\nM`           .NMMMMMMMMMMMMMMMNodMMMMMMM\nM-            sMMMMMMMMMMMMMMMMMMMMMMMMM\nmm`           mMMMMMMMMMNdhhdNMMMMMMMMMm\noMm/        .dMMMMMMMMh:      :dMMMMMMMo\n mMMNyo/:/sdMMMMMMMMM+          sMMMMMm\n .mMMMMMMMMMMMMMMMMMs           `NMMMm.\n  `hMMMMMMMMMMM.oo+.            `MMMh`\n    /NMMMMMMMMMo                sMN/\n     `omMMMMMMMMy.            :dmo`\n        :smMMMMMMMh+-`   `.:ohs:\n           ./oydmMMMMMMdhyo/."@,
        Distro::UbuntuGnome => "\u{1b}[37m          ./o.\n        .oooooooo\n      .oooo```soooo\n    .oooo`     `soooo\n   .ooo`   \u{1b}[36m.o.\u{1b}[37m   `\\/ooo.\n   :ooo   \u{1b}[36m:oooo.\u{1b}[37m   `\\/ooo.\n    sooo    \u{1b}[36m`ooooo\u{1b}[37m    \\/oooo\n     \\/ooo    \u{1b}[36m`soooo\u{1b}[37m    `ooooo\n      `soooo    \u{1b}[36m`\\/ooo\u{1b}[37m    `soooo\n\u{1b}[36m./oo    \u{1b}[37m`\\/ooo    \u{1b}[36m`/oooo.\u{1b}[37m   `/ooo\n\u{1b}[36m`\\/ooo.   \u{1b}[37m`/oooo.   \u{1b}[36m`/oooo.\u{1b}[37m   ``\n\u{1b}[36m  `\\/ooo.    \u{1b}[37m/oooo     \u{1b}[36m/ooo`\n\u{1b}[36m     `ooooo    \u{1b}[37m``    \u{1b}[36m.oooo\n\u{1b}[36m       `soooo.     .oooo`\n         `\\/oooooooooo`\n            ``\\/oo``"@,
        Distro::UbuntuMate => "\u{1b}[32m            .:/+oossssoo+/:.`\n        `:+ssssssssssssssssss+:`\n      -+sssssssssssssss\u{1b}[37my\u{1b}[32mssssssss+-\n    .osssssssssssss\u{1b}[37myy\u{1b}[32mss\u{1b}[37mmMmh\u{1b}[32mssssssso.\n   /sssssssss\u{1b}[37mydmNNNmmd\u{1b}[32ms\u{1b}[37mmMMMMNdy\u{1b}[32msssss/\n `+ssssssss\u{1b}[37mhNNdy\u{1b}[32msssssss\u{1b}[37mmMMMMNdy\u{1b}[32mssssss+`\n +sssssss\u{1b}[37myNNh\u{1b}[32mss\u{1b}[37mhmNNNNm\u{1b}[32ms\u{1b}[37mmMmh\u{1b}[32ms\u{1b}[37mydy\u{1b}[32msssssss+\n-sssss\u{1b}[37my\u{1b}[32mss\u{1b}[37mNm\u{1b}[32mss\u{1b}[37mhNNh\u{1b}[32mssssss\u{1b}[37my\u{1b}[32ms\u{1b}[37mhh\u{1b}[32mss\u{1b}[37mmMy\u{1b}[32msssssss-\n+ssss\u{1b}[37myMNdy\u{1b}[32mss\u{1b}[37mhMd\u{1b}[32mssssssssss\u{1b}[37mhMd\u{1b}[32mss\u{1b}[37mNN\u{1b}[32msssssss+\nsssss\u{1b}[37myMMMMMmh\u{1b}[32msssssssssssss\u{1b}[37mNM\u{1b}[32mss\u{1b}[37mdMy\u{1b}[32msssssss\nsssss\u{1b}[37myMMMMMmhy\u{1b}[32mssssssssssss\u{1b}[37mNM\u{1b}[32mss\u{1b}[37mdMy\u{1b}[32msssssss\n+ssss\u{1b}[37myMNdy\u{1b}[32mss\u{1b}[37mhMd\u{1b}[32mssssssssss\u{1b}[37mhMd\u{1b}[32mss\u{1b}[37mNN\u{1b}[32msssssss+\n-sssss\u{1b}[37my\u{1b}[32mss\u{1b}[37mNm\u{1b}[32mss\u{1b}[37mhNNh\u{1b}[32mssssssss\u{1b}[37mdh\u{1b}[32mss\u{1b}[37mmMy\u{1b}[32msssssss-\n +sssssss\u{1b}[37myNNh\u{1b}[32mss\u{1b}[37mhmNNNNm\u{1b}[32ms\u{1b}[37mmNmh\u{1b}[32ms\u{1b}[37mymy\u{1b}[32msssssss+\n  +ssssssss\u{1b}[37mhNNdy\u{1b}[32msssssss\u{1b}[37mmMMMMmhy\u{1b}[32mssssss+\n   /sssssssss\u{1b}[37mydmNNNNmd\u{1b}[32ms\u{1b}[37mmMMMMNdh\u{1b}[32msssss/\n    .osssssssssssss\u{1b}[37myy\u{1b}[32mss\u{1b}[37mmMmdy\u{1b}[32msssssso.\n      -+sssssssssssssss\u{1b}[37my\u{1b}[32mssssssss+-\n        `:+ssssssssssssssssss+:`\n            .:/+oossssoo+/:."@,
        Distro::UbuntuOld => "\u{1b}[31m                         ./+o+-\n\u{1b}[37m                 yyyyy- \u{1b}[31m-yyyyyy+\n\u{1b}[37m              \u{1b}[37m://+//////\u{1b}[31m-yyyyyyo\n\u{1b}[33m          .++ \u{1b}[37m.:/++++++/-\u{1b}[31m.+sss/`\n\u{1b}[33m        .:++o:  \u{1b}[37m/++++++++/:--:/-\n\u{1b}[33m       o:+o+:++.\u{1b}[37m`..```.-/oo+++++/\n\u{1b}[33m      .:+o:+o/.\u{1b}[37m          `+sssoo+/\n\u{1b}[37m .++/+:\u{1b}[33m+oo+o:`\u{1b}[37m             /sssooo.\n\u{1b}[37m/+++//+:\u{1b}[33m`oo+o\u{1b}[37m               /::--:.\n\u{1b}[37m+/+o+++\u{1b}[33m`o++o\u{1b}[31m               ++////.\n\u{1b}[37m .++.o+\u{1b}[33m++oo+:`\u{1b}[31m             /dddhhh.\n\u{1b}[33m      .+.o+oo:.\u{1b}[31m          `oddhhhh+\n\u{1b}[33m       +.++o+o`\u{1b}[31m`-````.:ohdhhhhh+\n\u{1b}[33m        `:o+++ \u{1b}[31m`ohhhhhhhhyo++os:\n\u{1b}[33m          .o:\u{1b}[31m`.syhhhhhhh/\u{1b}[33m.oo++o`\n\u{1b}[31m              /osyyyyyyo\u{1b}[33m++ooo+++/\n\u{1b}[31m                  ````` \u{1b}[33m+oo+++o:\n\u{1b}[33m                         `oo++."@,
        Distro::UbuntuStudio => "\u{1b}[36m              ..-::::::-.`\n         `.:+++++++++++\u{1b}[37mooo\u{1b}[36m++:.`\n       ./+++++++++++++\u{1b}[37msMMMNdyo\u{1b}[36m+/.\n     .++++++++++++++++\u{1b}[37moyhmMMMMms\u{1b}[36m++.\n   `/+++++++++\u{1b}[37mosyhddddhys\u{1b}[36m+\u{1b}[37mosdMMMh\u{1b}[36m++/`\n  `+++++++++\u{1b}[37mydMMMMNNNMMMMNds\u{1b}[36m+\u{1b}[37moyyo\u{1b}[36m++++`\n  +++++++++\u{1b}[37mdMMNhso\u{1b}[36m++++\u{1b}[37moydNMMmo\u{1b}[36m++++++++`\n :+\u{1b}[37modmy\u{1b}[36m+++\u{1b}[37mooysoohmNMMNmyoohMMNs\u{1b}[36m+++++++:\n ++\u{1b}[37mdMMm\u{1b}[36m+\u{1b}[37moNMd\u{1b}[36m++\u{1b}[37myMMMmhhmMMNs+yMMNo\u{1b}[36m+++++++\n`++\u{1b}[37mNMMy\u{1b}[36m+\u{1b}[37mhMMd\u{1b}[36m+\u{1b}[37moMMMs\u{1b}[36m++++\u{1b}[37msMMN\u{1b}[36m++\u{1b}[37mNMMs\u{1b}[36m+++++++.\n`++\u{1b}[37mNMMy\u{1b}[36m+\u{1b}[37mhMMd\u{1b}[36m+\u{1b}[37moMMMo\u{1b}[36m++++\u{1b}[37msMMN\u{1b}[36m++\u{1b}[37mmMMs\u{1b}[36m+++++++.\n ++\u{1b}[37mdMMd\u{1b}[36m+\u{1b}[37moNMm\u{1b}[36m++\u{1b}[37myMMNdhhdMMMs\u{1b}[36m+y\u{1b}[37mMMNo\u{1b}[36m+++++++\n :+\u{1b}[37modmy\u{1b}[36m++\u{1b}[37moo\u{1b}[36m+\u{1b}[37mss\u{1b}[36m+\u{1b}[37mohNMMMMmho\u{1b}[36m+\u{1b}[37myMMMs\u{1b}[36m+++++++:\n  +++++++++\u{1b}[37mhMMmhs+ooo+oshNMMms\u{1b}[36m++++++++\n  `++++++++\u{1b}[37moymMMMMNmmNMMMMmy+oys\u{1b}[36m+++++`\n   `/+++++++++\u{1b}[37moyhdmmmmdhso+sdMMMs\u{1b}[36m++/\n     ./+++++++++++++++\u{1b}[37moyhdNMMMms\u{1b}[36m++.\n       ./+++++++++++++\u{1b}[37mhMMMNdyo\u{1b}[36m+/.\n         `.:+++++++++++\u{1b}[37msso\u{1b}[36m++:.\n              ..-::::::-.."@,
        Distro::UbuntuSmall => "\u{1b}[31m         _\n     ---(_)\n _/  ---  \\\\\n(_) |   |\n  \\\\  --- _/\n     ---(_)"@,
        Distro::Ubuntu => "\u{1b}[31m            .-/+oossssoo+\\-.\n        ´:+ssssssssssssssssss+:`\n      -+ssssssssssssssssssyyssss+-\n    .ossssssssssssssssss\u{1b}[37mdMMMNy\u{1b}[31msssso.\n   /sssssssssss\u{1b}[37mhdmmNNmmyNMMMMh\u{1b}[31mssssss\\\n  +sssssssss\u{1b}[37mhm\u{1b}[31myd\u{1b}[37mMMMMMMMNddddy\u{1b}[31mssssssss+\n /ssssssss\u{1b}[37mhNMMM\u{1b}[31myh\u{1b}[37mhyyyyhmNMMMNh\u{1b}[31mssssssss\\\n.ssssssss\u{1b}[37mdMMMNh\u{1b}[31mssssssssss\u{1b}[37mhNMMMd\u{1b}[31mssssssss.\n+ssss\u{1b}[37mhhhyNMMNy\u{1b}[31mssssssssssss\u{1b}[37myNMMMy\u{1b}[31msssssss+\noss\u{1b}[37myNMMMNyMMh\u{1b}[31mssssssssssssss\u{1b}[37mhmmmh\u{1b}[31mssssssso\noss\u{1b}[37myNMMMNyMMh\u{1b}[31msssssssssssssshmmmh\u{1b}[31mssssssso\n+ssss\u{1b}[37mhhhyNMMNy\u{1b}[31mssssssssssss\u{1b}[37myNMMMy\u{1b}[31msssssss+\n.ssssssss\u{1b}[37mdMMMNh\u{1b}[31mssssssssss\u{1b}[37mhNMMMd\u{1b}[31mssssssss.\n \\ssssssss\u{1b}[37mhNMMM\u{1b}[31myh\u{1b}[37mhyyyyhdNMMMNh\u{1b}[31mssssssss/\n  +sssssssss\u{1b}[37mdm\u{1b}[31myd\u{1b}[37mMMMMMMMMddddy\u{1b}[31mssssssss+\n   \\sssssssssss\u{1b}[37mhdmNNNNmyNMMMMh\u{1b}[31mssssss/\n    .ossssssssssssssssss\u{1b}[37mdMMMNy\u{1b}[31msssso.\n      -+sssssssssssssssss\u{1b}[37myyy\u{1b}[31mssss+-\n        `:+ssssssssssssssssss+:`\n            .-\\+oossssoo+/-."@,
        Distro::Univention => "\u{1b}[31m         ./osssssssssssssssssssssso+-\n       `ohhhhhhhhhhhhhhhhhhhhhhhhhhhhy:\n       shhhhhhhhhhhhhhhhhhhhhhhhhhhhhhh-\n   `-//\u{1b}[37msssss\u{1b}[31m/hhhhhhhhhhhhhh+\u{1b}[37ms\u{1b}[31m.hhhhhhhhh+\n .ohhhy\u{1b}[37msssss\u{1b}[31m.hhhhhhhhhhhhhh.\u{1b}[37msss\u{1b}[31m+hhhhhhh+\n.yhhhhy\u{1b}[37msssss\u{1b}[31m.hhhhhhhhhhhhhh.\u{1b}[37mssss\u{1b}[31m:hhhhhh+\n+hhhhhy\u{1b}[37msssss\u{1b}[31m.hhhhhhhhhhhhhh.\u{1b}[37msssss\u{1b}[31myhhhhh+\n+hhhhhy\u{1b}[37msssss\u{1b}[31m.hhhhhhhhhhhhhh.\u{1b}[37msssss\u{1b}[31myhhhhh+\n+hhhhhy\u{1b}[37msssss\u{1b}[31m.hhhhhhhhhhhhhh.\u{1b}[37msssss\u{1b}[31myhhhhh+\n+hhhhhy\u{1b}[37msssss\u{1b}[31m.hhhhhhhhhhhhhh.\u{1b}[37msssss\u{1b}[31myhhhhh+\n+hhhhhy\u{1b}[37msssss\u{1b}[31m.hhhhhhhhhhhhhh.\u{1b}[37msssss\u{1b}[31myhhhhh+\n+hhhhhy\u{1b}[37msssss\u{1b}[31m.hhhhhhhhhhhhhh.\u{1b}[37msssss\u{1b}[31myhhhhh+\n+hhhhhy\u{1b}[37msssss\u{1b}[31m.hhhhhhhhhhhhhh.\u{1b}[37msssss\u{1b}[31myhhhhh+\n+hhhhhy\u{1b}[37mssssss\u{1b}[31m+yhhhhhhhhhhy/\u{1b}[37mssssss\u{1b}[31myhhhhh+\n+hhhhhh:\u{1b}[37msssssss\u{1b}[31m:hhhhhhh+\u{1b}[37m.ssssssss\u{1b}[31myhhhhy.\n+hhhhhhh+`\u{1b}[37mssssssssssssssss\u{1b}[31mhh\u{1b}[37msssss\u{1b}[31myhhho`\n+hhhhhhhhhs+\u{1b}[37mssssssssssss\u{1b}[31m+hh+\u{1b}[37msssss\u{1b}[31m/:-`\n-hhhhhhhhhhhhhhhhhhhhhhhhhhhhhhho\n :yhhhhhhhhhhhhhhhhhhhhhhhhhhhh+`\n   -+ossssssssssssssssssssss+:`"@,
        Distro::Venom => "\u{1b}[90m   :::::::          :::::::\n   mMMMMMMm        dMMMMMMm\n   /MMMMMMMo      +MMMMMMM/\n    yMMMMMMN      mMMMMMMy\n     NMMMMMMs    oMMMMMMm\n     +MMMMMMN:   NMMMMMM+\n      hMMMMMMy  sMMMMMMy\n      :NMMMMMM::NMMMMMN:\n       oMMMMMMyyMMMMMM+\n        dMMMMMMMMMMMMh\n        /MMMMMMMMMMMN:\n         sMMMMMMMMMMo\n          mMMMMMMMMd\n          +MMMMMMMN:\n            ::::::"@,
        Distro::VoidSmall => "\u{1b}[32m    _______\n _ \\\\______ -\n| \\\\  ___  \\\\ |\n| | /   \\ | |\n| | \\___/ | |\n| \\\\______ \\\\_|\n -_______\\\\"@,
        Distro::LangitKetujuh => "\u{1b}[37m\n   L7L7L7L7L7L7L7L7L7L7L7L7L7L7L7L7L7L7L7L7L7L\n      'L7L7L7L7L7L7L7L7L7L7L7L7L7L7L7L7L7L7L7L\n   L7L.   'L7L7L7L7L7L7L7L7L7L7L7L7L7L7L7L7L7L\n   L7L7L7L                             L7L7L7L\n   L7L7L7L                             L7L7L7L\n   L7L7L7L             L7L7L7L7L7L7L7L7L7L7L7L\n   L7L7L7L                'L7L7L7L7L7L7L7L7L7L\n   L7L7L7L                    'L7L7L7L7L7L7L7L\n   L7L7L7L                             L7L7L7L\n   L7L7L7L                             L7L7L7L\n   L7L7L7L7L7L7L7L7L7L7L7L7L7L7L7L7L7L.   'L7L\n   L7L7L7L7L7L7L7L7L7L7L7L7L7L7L7L7L7L7L7L.\n   L7L7L7L7L7L7L7L7L7L7L7L7L7L7L7L7L7L7L7L7L7L\n\u{1b}[34m"@,
        Distro::Semc => "\u{1b}[32m            /\\\n     ______/  \\\n    /      |()| \u{1b}[90mE M C\n\u{1b}[32m   |   (-- |  |\n    \\   \\  |  |\n.----)   | |__|\n|_______/ / \u{1b}[31m\"\u{1b}[32m  \\\n              \u{1b}[31m\"\n            \""@,
        Distro::Obarun => "\u{1b}[36m                    ,;::::;\n                ;cooolc;,\n             ,coool;\n           ,loool,\n          loooo;\n        :ooool\n       cooooc            ,:ccc;\n      looooc           :oooooool\n     cooooo          ;oooooooooo,\n    :ooooo;         :ooooooooooo\n    oooooo          oooooooooooc\n   :oooooo         :ooooooooool\n   loooooo         ;oooooooool\n   looooooc        .coooooooc\n   cooooooo:           ,;co;\n   ,ooooooool;       ,:loc\n    cooooooooooooloooooc\n     ;ooooooooooooool;\n       ;looooooolc;"@,
        Distro::Windows11 => "\u{1b}[36m\n################  ################\n################  ################\n################  ################\n################  ################\n################  ################\n################  ################\n################  ################\n\n################  ################\n################  ################\n################  ################\n################  ################\n################  ################\n################  ################\n################  ################"@,
        Distro::Windows10 => "\u{1b}[36m                                ..,\n                    ....,,:;+ccllll\n      ...,,+:;  cllllllllllllllllll\n,cclllllllllll  lllllllllllllllllll\nllllllllllllll  lllllllllllllllllll\nllllllllllllll  lllllllllllllllllll\nllllllllllllll  lllllllllllllllllll\nllllllllllllll  lllllllllllllllllll\nllllllllllllll  lllllllllllllllllll\n\nllllllllllllll  lllllllllllllllllll\nllllllllllllll  lllllllllllllllllll\nllllllllllllll  lllllllllllllllllll\nllllllllllllll  lllllllllllllllllll\nllllllllllllll  lllllllllllllllllll\n`'ccllllllllll  lllllllllllllllllll\n       `' \\\\*::  :ccllllllllllllllll\n                       ````''*::cll\n                                 ``"@,
        Distro::Windows => "\u{1b}[31m        ,.=:!!t3Z3z.,\n       :tt:::tt333EE3\n\u{1b}[31m       Et:::ztt33EEEL$\u{1b}[32m @Ee.,      ..,\n\u{1b}[31m      ;tt:::tt333EE7\u{1b}[32m ;EEEEEEttttt33#\n\u{1b}[31m     :Et:::zt333EEQ.\u{1b}[32m $EEEEEttttt33QL\n\u{1b}[31m     it::::tt333EEF\u{1b}[32m @EEEEEEttttt33F\n\u{1b}[31m    ;3=*^```\"*4EEV\u{1b}[32m :EEEEEEttttt33@.\n\u{1b}[34m    ,.=::::!t=., \u{1b}[31m`\u{1b}[32m @EEEEEEtttz33QF\n\u{1b}[34m   ;::::::::zt33)\u{1b}[32m   \"4EEEtttji3P*\n\u{1b}[34m  :t::::::::tt33.\u{1b}[33m:Z3z..\u{1b}[32m  ``\u{1b}[33m ,..g.\n\u{1b}[34m  i::::::::zt33F\u{1b}[33m AEEEtttt::::ztF\n\u{1b}[34m ;:::::::::t33V\u{1b}[33m ;EEEttttt::::t3\n\u{1b}[34m E::::::::zt33L\u{1b}[33m @EEEtttt::::z3F\n\u{1b}[34m{3=*^```\"*4E3)\u{1b}[33m ;EEEtttt:::::tZ`\n\u{1b}[34m             `\u{1b}[33m :EEEEtttt::::z7\n                 \"VEzjt:;;z>*`"@,
        Distro::Xubuntu => "\u{1b}[34m           `.:/ossyyyysso/:.\n        `.yyyyyyyyyyyyyyyyyyyy.`\n      `yyyyyyyyyyyyyyyyyyyyyyyyyy`\n    `yyyyyyyyyyyyyyyyyyyy\u{1b}[37m::\u{1b}[34myyyyyyyy`\n   .yyyyyyyyyyy\u{1b}[37m/+:\u{1b}[34myyyyyyy\u{1b}[37mds\u{1b}[34myyy\u{1b}[37m+y\u{1b}[34myyyy.\n  yyyyyyy\u{1b}[37m:o/\u{1b}[34myy\u{1b}[37mdMMM+\u{1b}[34myyyyy\u{1b}[37m/M+\u{1b}[34my\u{1b}[37m:hM+\u{1b}[34myyyyyy\n yyyyyyy\u{1b}[37m+MMMy\u{1b}[34my\u{1b}[37mmMMMh\u{1b}[34myyyyy\u{1b}[37myM::mM+\u{1b}[34myyyyyyyy\n`yyyyyyy\u{1b}[37m+MMMMysMMMd\u{1b}[34myyyyy\u{1b}[37mdh:mN+\u{1b}[34myyyyyyyyy`\nyyyyyyyy\u{1b}[37m:NMMMMmMMMMmmdhyy+/y:\u{1b}[34myyyyyyyyyyy\nyyyyyyyy\u{1b}[37m+MMMMMMMMMMMMMMMMMMNho:\u{1b}[34myyyyyyyyy\nyyyyyyyy\u{1b}[37mmMMMMMMMMMMMMMMMMMMMMMMy\u{1b}[34myyyyyyyy\nyyyyyyy\u{1b}[37m+MMMMMMMMMMMMMMMMMMMMMMMM/\u{1b}[34myyyyyyy\n`yyyyyy\u{1b}[37msMMMMMMMMMMMMMMMMMMMMMMmo\u{1b}[34myyyyyyy`\n yyyyyy\u{1b}[37moMMMMMMMMMMMMMMMMMMMmy+\u{1b}[34myyyyyyyyy\n  yyyyy\u{1b}[37m:mMMMMMMMMMMMMMMNho/\u{1b}[34myyyyyyyyyyy\n   .yyyy\u{1b}[37m:yNMMMMMMMNdyo:\u{1b}[34myyyyyyyyyyyyy.\n    `yyyyyy\u{1b}[37m:/++/::\u{1b}[34myyyyyyyyyyyyyyyyy`\n      `yyyyyyyyyyyyyyyyyyyyyyyyyy`\n        `.yyyyyyyyyyyyyyyyyyyy.`\n           `.:/oosyyyysso/:.`"@,
        Distro::Zorin => "\u{1b}[34m        `osssssssssssssssssssso`\n       .osssssssssssssssssssssso.\n      .+oooooooooooooooooooooooo+.\n\n\n  `::::::::::::::::::::::.         .:`\n `+ssssssssssssssssss+:.`     `.:+ssso`\n.ossssssssssssssso/.       `-+ossssssso.\nssssssssssssso/-`      `-/osssssssssssss\n.ossssssso/-`      .-/ossssssssssssssso.\n `+sss+:.      `.:+ssssssssssssssssss+`\n  `:.         .::::::::::::::::::::::`\n\n\n      .+oooooooooooooooooooooooo+.\n       -osssssssssssssssssssssso-\n        `osssssssssssssssssssso`"@,
        Distro::Darwin => "\u{1b}[32m                    c.'\n                 ,xNMM.\n               .OMMMMo\n               lMMM\"\n     .;loddo:.  .olloddol;.\n   cKMMMMMMMMMMNWMMMMMMMMMM0:\n\u{1b}[33m .KMMMMMMMMMMMMMMMMMMMMMMMWd.\n XMMMMMMMMMMMMMMMMMMMMMMMX.\n\u{1b}[31m;MMMMMMMMMMMMMMMMMMMMMMMM:\n:MMMMMMMMMMMMMMMMMMMMMMMM:\n\u{1b}[31m.MMMMMMMMMMMMMMMMMMMMMMMMX.\n kMMMMMMMMMMMMMMMMMMMMMMMMWd.\n \u{1b}[35m'XMMMMMMMMMMMMMMMMMMMMMMMMMMk\n  'XMMMMMMMMMMMMMMMMMMMMMMMMK.\n    \u{1b}[34mkMMMMMMMMMMMMMMMMMMMMMMd\n     ;KMMMMMMMWXXWMMMMMMMk.\n       \"cooc*\"    \"*coo'\""@,
        Distro::ProfelisSambaBox => "\u{1b}[33m\n                    #\n               *////#####\n           /////////#########(\n      .((((((/////    ,####(#(((((\n  /#######(((*             (#(((((((((.\n//((#(#(#,        ((##(        ,((((((//\n//////        #(##########(       //////\n//////    ((#(#(#(#(##########(/////////\n/////(    (((((((#########(##((((((/////\n/(((#(                             ((((/\n####(#                             ((###\n#########(((/////////(((((((((,    (#(#(\n########(   /////////(((((((*      #####\n####///,        *////(((         (((((((\n.///////////                .//(((((((((\n     ///////////,       *(/////((((*\n         ,/(((((((((##########/.\n             .((((((#######\n                  ((##*"@,
        Distro::Unknown => Seq::empty(),
    }
}

impl Distro {
    /// The art banner for this distribution; empty for an unknown one.
    pub fn icon(&self) -> (r: String)
        ensures
            r@ == icon_seq(*self),
    {
        match self {
            Distro::Aix => aix(),
            Distro::AlmaLinux => alma_linux(),
            Distro::AlpineSmall => alpine_small(),
            Distro::Alpine => alpine(),
            Distro::Alter => alter(),
            Distro::Amazon => amazon(),
            Distro::Anarchy => anarchy(),
            Distro::AndroidSmall => android_small(),
            Distro::Android => android(),
            Distro::InstantOs => instant_os(),
            Distro::Antergos => antergos(),
            Distro::AntiX => anti_x(),
            Distro::AoscOs => aosc_os(),
            Distro::Apricity => apricity(),
            Distro::Archcraft => archcraft(),
            Distro::ArcolinuxSmall => arcolinux_small(),
            Distro::ArcoLinux => arco_linux(),
            Distro::ArchSmall => arch_small(),
            Distro::ArchOld => arch_old(),
            Distro::ArchBox => arch_box(),
            Distro::ArcHlabs => arc_hlabs(),
            Distro::ArchStrike => arch_strike(),
            Distro::XFerience => x_ferience(),
            Distro::ArchMerge => arch_merge(),
            Distro::Arch => arch(),
            Distro::ArtixSmall => artix_small(),
            Distro::Artix => artix(),
            Distro::Arya => arya(),
            Distro::Bedrock => bedrock(),
            Distro::Bitrig => bitrig(),
            Distro::BlackArch => black_arch(),
            Distro::Blag => blag(),
            Distro::BlankOn => blank_on(),
            Distro::BlueLight => blue_light(),
            Distro::Bonsai => bonsai(),
            Distro::BunsenLabs => bunsen_labs(),
            Distro::Calculate => calculate(),
            Distro::Carbs => carbs(),
            Distro::CblMariner => cbl_mariner(),
            Distro::CelOs => cel_os(),
            Distro::CentosSmall => centos_small(),
            Distro::CentOs => cent_os(),
            Distro::Chakra => chakra(),
            Distro::ChaletOs => chalet_os(),
            Distro::Chapeau => chapeau(),
            Distro::Chrom => chrom(),
            Distro::CleanjaroSmall => cleanjaro_small(),
            Distro::Cleanjaro => cleanjaro(),
            Distro::ClearOs => clear_os(),
            Distro::ClearLinuxOs => clear_linux_os(),
            Distro::Clover => clover(),
            Distro::Condres => condres(),
            Distro::ContainerLinuxByCoreOs => container_linux_by_core_os(),
            Distro::CruxSmall => crux_small(),
            Distro::Crux => crux(),
            Distro::CrystalLinux => crystal_linux(),
            Distro::Cucumber => cucumber(),
            Distro::Dahlia => dahlia(),
            Distro::DebianSmall => debian_small(),
            Distro::Debian => debian(),
            Distro::Deepin => deepin(),
            Distro::DesaOs => desa_os(),
            Distro::Devuan => devuan(),
            Distro::DracOs => drac_os(),
            Distro::Itc => itc(),
            Distro::DragonflyOld => dragonfly_old(),
            Distro::DragonflySmall => dragonfly_small(),
            Distro::DragonFly => dragon_fly(),
            Distro::Drauger => drauger(),
            Distro::ElementarySmall => elementary_small(),
            Distro::Elementary => elementary(),
            Distro::EndeavourOs => endeavour_os(),
            Distro::Endless => endless(),
            Distro::EuroLinux => euro_linux(),
            Distro::Exherbo => exherbo(),
            Distro::FedoraSmall => fedora_small(),
            Distro::FedoraOld => fedora_old(),
            Distro::Fedora => fedora(),
            Distro::Feren => feren(),
            Distro::FreebsdSmall => freebsd_small(),
            Distro::FreeMiNt => free_mi_nt(),
            Distro::Frugalware => frugalware(),
            Distro::Funtoo => funtoo(),
            Distro::GalliumOs => gallium_os(),
            Distro::Garuda => garuda(),
            Distro::GentooSmall => gentoo_small(),
            Distro::Gentoo => gentoo(),
            Distro::Pentoo => pentoo(),
            Distro::Glaucus => glaucus(),
            Distro::GNewSense => g_new_sense(),
            Distro::Gnome => gnome(),
            Distro::Gnu => gnu(),
            Distro::GoboLinux => gobo_linux(),
            Distro::Grombyang => grombyang(),
            Distro::GuixSmall => guix_small(),
            Distro::Guix => guix(),
            Distro::HaikuSmall => haiku_small(),
            Distro::Haiku => haiku(),
            Distro::Huayra => huayra(),
            Distro::HydroOs => hydro_os(),
            Distro::HyperbolaSmall => hyperbola_small(),
            Distro::Hyperbola => hyperbola(),
            Distro::Iglunix => iglunix(),
            Distro::Januslinux => januslinux(),
            Distro::Kaisen => kaisen(),
            Distro::Kali => kali(),
            Distro::KaOs => ka_os(),
            Distro::Kde => kde(),
            Distro::Kibojoe => kibojoe(),
            Distro::Kogaion => kogaion(),
            Distro::Korora => korora(),
            Distro::KsLinux => ks_linux(),
            Distro::Kubuntu => kubuntu(),
            Distro::Lede => lede(),
            Distro::LaxerOs => laxer_os(),
            Distro::LibreElec => libre_elec(),
            Distro::Linux => linux(),
            Distro::LinuxliteSmall => linuxlite_small(),
            Distro::LinuxLite => linux_lite(),
            Distro::Lmde => lmde(),
            Distro::Lubuntu => lubuntu(),
            Distro::Lunar => lunar(),
            Distro::Mac => mac(),
            Distro::MageiaSmall => mageia_small(),
            Distro::Mageia => mageia(),
            Distro::MagpieOs => magpie_os(),
            Distro::Mandriva => mandriva(),
            Distro::ManjaroSmall => manjaro_small(),
            Distro::Manjaro => manjaro(),
            Distro::Maui => maui(),
            Distro::Mer => mer(),
            Distro::Minix => minix(),
            Distro::LinuxmintSmall => linuxmint_small(),
            Distro::LinuxMintOld => linux_mint_old(),
            Distro::LinuxMint => linux_mint(),
            Distro::LiveRaizo => live_raizo(),
            Distro::MxSmall => mx_small(),
            Distro::Mx => mx(),
            Distro::Namib => namib(),
            Distro::Neptune => neptune(),
            Distro::NetbsdSmall => netbsd_small(),
            Distro::NetBsd => net_bsd(),
            Distro::Netrunner => netrunner(),
            Distro::Nitrux => nitrux(),
            Distro::NixosSmall => nixos_small(),
            Distro::NixosOld => nixos_old(),
            Distro::NixOs => nix_os(),
            Distro::Nurunner => nurunner(),
            Distro::NuTyX => nu_ty_x(),
            Distro::ObRevenge => ob_revenge(),
            Distro::OpenbsdSmall => openbsd_small(),
            Distro::OpenBsd => open_bsd(),
            Distro::OpenEuler => open_euler(),
            Distro::OpenIndiana => open_indiana(),
            Distro::Openmamba => openmamba(),
            Distro::OpenMandriva => open_mandriva(),
            Distro::OpenStage => open_stage(),
            Distro::OpenWrt => open_wrt(),
            Distro::OpenSourceMediaCenter => open_source_media_center(),
            Distro::Oracle => oracle(),
            Distro::OsElbrus => os_elbrus(),
            Distro::PacBsd => pac_bsd(),
            Distro::ParabolaSmall => parabola_small(),
            Distro::Parabola => parabola(),
            Distro::Pardus => pardus(),
            Distro::Parrot => parrot(),
            Distro::Parsix => parsix(),
            Distro::Pcbsd => pcbsd(),
            Distro::PcLinuxOs => pc_linux_os(),
            Distro::Pengwin => pengwin(),
            Distro::Peppermint => peppermint(),
            Distro::PoposSmall => popos_small(),
            Distro::PopOs => pop_os(),
            Distro::Porteus => porteus(),
            Distro::PostmarketosSmall => postmarketos_small(),
            Distro::PostMarketOs => post_market_os(),
            Distro::PuffOs => puff_os(),
            Distro::Puppy => puppy(),
            Distro::PureosSmall => pureos_small(),
            Distro::PureOs => pure_os(),
            Distro::Qubes => qubes(),
            Distro::Qubyt => qubyt(),
            Distro::Quibian => quibian(),
            Distro::Radix => radix(),
            Distro::RaspbianSmall => raspbian_small(),
            Distro::Raspbian => raspbian(),
            Distro::RebornOs => reborn_os(),
            Distro::RedStar => red_star(),
            Distro::Redcore => redcore(),
            Distro::RedhatOld => redhat_old(),
            Distro::Redhat => redhat(),
            Distro::RefractedDevuan => refracted_devuan(),
            Distro::Regata => regata(),
            Distro::Regolith => regolith(),
            Distro::RockySmall => rocky_small(),
            Distro::Rosa => rosa(),
            Distro::Sabotage => sabotage(),
            Distro::Sabayon => sabayon(),
            Distro::Sailfish => sailfish(),
            Distro::SalentOs => salent_os(),
            Distro::Scientific => scientific(),
            Distro::Septor => septor(),
            Distro::Serene => serene(),
            Distro::SharkLinux => shark_linux(),
            Distro::SlackwareSmall => slackware_small(),
            Distro::Slackware => slackware(),
            Distro::SliTaz => sli_taz(),
            Distro::SmartOs => smart_os(),
            Distro::Solus => solus(),
            Distro::SourceMage => source_mage(),
            Distro::Sparky => sparky(),
            Distro::Star => star(),
            Distro::SteamOs => steam_os(),
            Distro::SunosSmall => sunos_small(),
            Distro::OpenSuseLeap => open_suse_leap(),
            Distro::T2 => t2(),
            Distro::OpenSuseTumbleweed => open_suse_tumbleweed(),
            Distro::OpensuseSmall => opensuse_small(),
            Distro::OpenSuse => open_suse(),
            Distro::SwagArch => swag_arch(),
            Distro::Tails => tails(),
            Distro::Trisquel => trisquel(),
            Distro::UbuntuCinnamon => ubuntu_cinnamon(),
            Distro::UbuntuBudgie => ubuntu_budgie(),
            Distro::UbuntuGnome => ubuntu_gnome(),
            Distro::UbuntuMate => ubuntu_mate(),
            Distro::UbuntuOld => ubuntu_old(),
            Distro::UbuntuStudio => ubuntu_studio(),
            Distro::UbuntuSmall => ubuntu_small(),
            Distro::Ubuntu => ubuntu(),
            Distro::Univention => univention(),
            Distro::Venom => venom(),
            Distro::VoidSmall => void_small(),
            Distro::LangitKetujuh => langit_ketujuh(),
            Distro::Semc => semc(),
            Distro::Obarun => obarun(),
            Distro::Windows11 => windows11(),
            Distro::Windows10 => windows10(),
            Distro::Windows => windows(),
            Distro::Xubuntu => xubuntu(),
            Distro::Zorin => zorin(),
            Distro::Darwin => darwin(),
            Distro::ProfelisSambaBox => profelis_samba_box(),
            Distro::Unknown => String::new(),
        }
    }
}

pub fn aix() -> (r: String)
    ensures
        r@ == icon_seq(Distro::Aix),
{
    String::from_str("\u{1b}[32m           `:+ssssossossss+-`\n        .oys///oyhddddhyo///sy+.\n      /yo:+hNNNNNNNNNNNNNNNNh+:oy/\n    :h/:yNNNNNNNNNNNNNNNNNNNNNNy-+h:\n  `ys.yNNNNNNNNNNNNNNNNNNNNNNNNNNy.ys\n `h+-mNNNNNNNNNNNNNNNNNNNNNNNNNNNNm-oh\n h+-NNNNNNNNNNNNNNNNNNNNNNNNNNNNNNNN.oy\n/d`mNNNNNNN/::mNNNd::m+:/dNNNo::dNNNd`m:\nh//NNNNNNN: . .NNNh  mNo  od. -dNNNNN:+y\nN.sNNNNNN+ -N/ -NNh  mNNd.   sNNNNNNNo-m\nN.sNNNNNs  +oo  /Nh  mNNs` ` /mNNNNNNo-m\nh//NNNNh  ossss` +h  md- .hm/ `sNNNNN:+y\n:d`mNNN+/yNNNNNd//y//h//oNNNNy//sNNNd`m-\n yo-NNNNNNNNNNNNNNNNNNNNNNNNNNNNNNNm.ss\n `h+-mNNNNNNNNNNNNNNNNNNNNNNNNNNNNm-oy\n   sy.yNNNNNNNNNNNNNNNNNNNNNNNNNNs.yo\n    :h+-yNNNNNNNNNNNNNNNNNNNNNNs-oh-\n      :ys:/yNNNNNNNNNNNNNNNmy/:sy:\n        .+ys///osyhhhhys+///sy+.\n            -/osssossossso/-")
}

pub fn alma_linux() -> (r: String)
    ensures
        r@ == icon_seq(Distro::AlmaLinux),
{
    String::from_str("\u{1b}[31m         'c:.\n\u{1b}[31m        lkkkx, ..       \u{1b}[33m..   ,cc,\n\u{1b}[31m        okkkk:ckkx'  \u{1b}[33m.lxkkx.okkkkd\n\u{1b}[31m        .:llcokkx'  \u{1b}[33m:kkkxkko:xkkd,\n\u{1b}[31m      .xkkkkdood:  \u{1b}[33m;kx,  .lkxlll;\n\u{1b}[31m       xkkx.       \u{1b}[33mxk'     xkkkkk:\n\u{1b}[31m       'xkx.       \u{1b}[33mxd      .....,.\n\u{1b}[34m      .. \u{1b}[31m:xkl'     \u{1b}[33m:c      ..''..\n\u{1b}[34m    .dkx'  \u{1b}[31m.:ldl:'. \u{1b}[33m'  \u{1b}[32m':lollldkkxo;\n\u{1b}[34m  .''lkkko'                     \u{1b}[32mckkkx.\n\u{1b}[34m'xkkkd:kkd.       ..  \u{1b}[36m;'        \u{1b}[32m:kkxo.\n\u{1b}[34m,xkkkd;kk'      ,d;    \u{1b}[36mld.   \u{1b}[32m':dkd::cc,\n\u{1b}[34m .,,.;xkko'.';lxo.      \u{1b}[36mdx,  \u{1b}[32m:kkk'xkkkkc\n\u{1b}[34m     'dkkkkkxo:.        \u{1b}[36m;kx  \u{1b}[32m.kkk:;xkkd.\n\u{1b}[34m       .....   \u{1b}[36m.;dk:.   \u{1b}[36mlkk.  \u{1b}[32m:;,\n             \u{1b}[36m:kkkkkkkdoxkkx\n              ,c,,;;;:xkkd.\n                ;kkkkl...\n                ;kkkkl\n                 ,od;")
}

pub fn alpine_small() -> (r: String)
    ensures
        r@ == icon_seq(Distro::AlpineSmall),
{
    String::from_str("\u{1b}[34m   /\\\\ /\\\\\n  /\u{1b}[37m/ \u{1b}[34m\\\\  \\\\\n /\u{1b}[37m/   \u{1b}[34m\\\\  \\\\\n/\u{1b}[37m//    \u{1b}[34m\\\\  \\\\\n\u{1b}[37m//      \u{1b}[34m\\\\  \\\\\n         \\\\")
}

pub fn alpine() -> (r: String)
    ensures
        r@ == icon_seq(Distro::Alpine),
{
    String::from_str("\u{1b}[34m       .hddddddddddddddddddddddh.\n      :dddddddddddddddddddddddddd:\n     /dddddddddddddddddddddddddddd/\n    +dddddddddddddddddddddddddddddd+\n  `sdddddddddddddddddddddddddddddddds`\n `ydddddddddddd++hdddddddddddddddddddy`\n.hddddddddddd+`  `+ddddh:-sdddddddddddh.\nhdddddddddd+`      `+y:    .sddddddddddh\nddddddddh+`   `//`   `.`     -sddddddddd\nddddddh+`   `/hddh/`   `:s-    -sddddddd\nddddh+`   `/+/dddddh/`   `+s-    -sddddd\nddd+`   `/o` :dddddddh/`   `oy-    .yddd\nhdddyo+ohddyosdddddddddho+oydddy++ohdddh\n.hddddddddddddddddddddddddddddddddddddh.\n `yddddddddddddddddddddddddddddddddddy`\n  `sdddddddddddddddddddddddddddddddds`\n    +dddddddddddddddddddddddddddddd+\n     /dddddddddddddddddddddddddddd/\n      :dddddddddddddddddddddddddd:\n       .hddddddddddddddddddddddh.")
}

pub fn alter() -> (r: String)
    ensures
        r@ == icon_seq(Distro::Alter),
{
    String::from_str("\u{1b}[36m                      %,\n                    ^WWWw\n                   'wwwwww\n                  !wwwwwwww\n                 #`wwwwwwwww\n                @wwwwwwwwwwww\n               wwwwwwwwwwwwwww\n              wwwwwwwwwwwwwwwww\n             wwwwwwwwwwwwwwwwwww\n            wwwwwwwwwwwwwwwwwwww,\n           w~1i.wwwwwwwwwwwwwwwww,\n         3~:~1lli.wwwwwwwwwwwwwwww.\n        :~~:~?ttttzwwwwwwwwwwwwwwww\n       #<~:~~~~?llllltO-.wwwwwwwwwww\n      #~:~~:~:~~?ltlltlttO-.wwwwwwwww\n     @~:~~:~:~:~~(zttlltltlOda.wwwwwww\n    @~:~~: ~:~~:~:(zltlltlO    a,wwwwww\n   8~~:~~:~~~~:~~~~_1ltltu          ,www\n  5~~:~~:~~:~~:~~:~~~_1ltq             N,,\n g~:~~:~~~:~~:~~:~:~~~~1q                N,")
}

pub fn amazon() -> (r: String)
    ensures
        r@ == icon_seq(Distro::Amazon),
{
    String::from_str("\u{1b}[33m             `-/oydNNdyo:.`\n      `.:+shmMMMMMMMMMMMMMMmhs+:.`\n    -+hNNMMMMMMMMMMMMMMMMMMMMMMNNho-\n.``      -/+shmNNMMMMMMNNmhs+/-      ``.\ndNmhs+:.       `.:/oo/:.`       .:+shmNd\ndMMMMMMMNdhs+:..        ..:+shdNMMMMMMMd\ndMMMMMMMMMMMMMMNds    odNMMMMMMMMMMMMMMd\ndMMMMMMMMMMMMMMMMh    yMMMMMMMMMMMMMMMMd\ndMMMMMMMMMMMMMMMMh    yMMMMMMMMMMMMMMMMd\ndMMMMMMMMMMMMMMMMh    yMMMMMMMMMMMMMMMMd\ndMMMMMMMMMMMMMMMMh    yMMMMMMMMMMMMMMMMd\ndMMMMMMMMMMMMMMMMh    yMMMMMMMMMMMMMMMMd\ndMMMMMMMMMMMMMMMMh    yMMMMMMMMMMMMMMMMd\ndMMMMMMMMMMMMMMMMh    yMMMMMMMMMMMMMMMMd\ndMMMMMMMMMMMMMMMMh    yMMMMMMMMMMMMMMMMd\ndMMMMMMMMMMMMMMMMh    yMMMMMMMMMMMMMMMMd\n.:+ydNMMMMMMMMMMMh    yMMMMMMMMMMMNdy+:.\n     `.:+shNMMMMMh    yMMMMMNhs+:``\n            `-+shy    shs+:`")
}

pub fn anarchy() -> (r: String)
    ensures
        r@ == icon_seq(Distro::Anarchy),
{
    String::from_str("\u{1b}[34m..\u{1b}[37m\n                        \u{1b}[34m..\u{1b}[37m\n                      \u{1b}[34m:..\u{1b}[37m\n                    \u{1b}[34m:+++.\u{1b}[37m\n              .:::++\u{1b}[34m++++\u{1b}[37m+::.\n          .:+######\u{1b}[34m++++\u{1b}[37m######+:.\n       .+#########\u{1b}[34m+++++\u{1b}[37m##########:.\n     .+##########\u{1b}[34m+++++++\u{1b}[37m##\u{1b}[34m+\u{1b}[37m#########+.\n    +###########\u{1b}[34m+++++++++\u{1b}[37m############:\n   +##########\u{1b}[34m++++++\u{1b}[37m#\u{1b}[34m++++\u{1b}[37m#\u{1b}[34m+\u{1b}[37m###########+\n  +###########\u{1b}[34m+++++\u{1b}[37m###\u{1b}[34m++++\u{1b}[37m#\u{1b}[34m+\u{1b}[37m###########+\n :##########\u{1b}[34m+\u{1b}[37m#\u{1b}[34m++++\u{1b}[37m####\u{1b}[34m++++\u{1b}[37m#\u{1b}[34m+\u{1b}[37m############:\n ###########\u{1b}[34m+++++\u{1b}[37m#####\u{1b}[34m+++++\u{1b}[37m#\u{1b}[34m+\u{1b}[37m###\u{1b}[34m++\u{1b}[37m######+\n.##########\u{1b}[34m++++++\u{1b}[37m#####\u{1b}[34m++++++++++++\u{1b}[37m#######.\n.##########\u{1b}[34m+++++++++++++++++++\u{1b}[37m###########.\n #####\u{1b}[34m++++++++++++++\u{1b}[37m###\u{1b}[34m++++++++\u{1b}[37m#########+\n :###\u{1b}[34m++++++++++\u{1b}[37m#########\u{1b}[34m+++++++\u{1b}[37m#########:\n  +######\u{1b}[34m+++++\u{1b}[37m##########\u{1b}[34m++++++++\u{1b}[37m#######+\n   +####\u{1b}[34m+++++\u{1b}[37m###########\u{1b}[34m+++++++++\u{1b}[37m#####+\n    :##\u{1b}[34m++++++\u{1b}[37m############\u{1b}[34m++++++++++\u{1b}[37m##:\n     .\u{1b}[34m++++++\u{1b}[37m#############\u{1b}[34m++++++++++\u{1b}[37m+.\n      :\u{1b}[34m++++\u{1b}[37m###############\u{1b}[34m+++++++\u{1b}[37m::\n     .\u{1b}[34m++. .:+\u{1b}[37m##############\u{1b}[34m+++++++\u{1b}[37m..\n     \u{1b}[34m.:.\u{1b}[37m      ..::++++++::..:\u{1b}[34m++++\u{1b}[37m+.\n     \u{1b}[34m.\u{1b}[37m                       \u{1b}[34m.:+++\u{1b}[37m.\n                                \u{1b}[34m.:\u{1b}[37m:\n                                   \u{1b}[34m..\u{1b}[37m\n                                    \u{1b}[34m..\u{1b}[37m")
}

pub fn android_small() -> (r: String)
    ensures
        r@ == icon_seq(Distro::AndroidSmall),
{
    String::from_str("\u{1b}[32m  ;,           ,;\n   ';,.-----.,;'\n  ,'           ',\n /    O     O    \\\\\n|                 |\n'-----------------'")
}

pub fn android() -> (r: String)
    ensures
        r@ == icon_seq(Distro::Android),
{
    String::from_str("\u{1b}[32m         -o          o-\n          +hydNNNNdyh+\n        +mMMMMMMMMMMMMm+\n      `dMM\u{1b}[37mm:\u{1b}[32mNMMMMMMN\u{1b}[37m:m\u{1b}[32mMMd`\n      hMMMMMMMMMMMMMMMMMMh\n  ..  yyyyyyyyyyyyyyyyyyyy  ..\n.mMMm`MMMMMMMMMMMMMMMMMMMM`mMMm.\n:MMMM-MMMMMMMMMMMMMMMMMMMM-MMMM:\n:MMMM-MMMMMMMMMMMMMMMMMMMM-MMMM:\n:MMMM-MMMMMMMMMMMMMMMMMMMM-MMMM:\n:MMMM-MMMMMMMMMMMMMMMMMMMM-MMMM:\n-MMMM-MMMMMMMMMMMMMMMMMMMM-MMMM-\n +yy+ MMMMMMMMMMMMMMMMMMMM +yy+\n      mMMMMMMMMMMMMMMMMMMm\n      `/++MMMMh++hMMMM++/`\n          MMMMo  oMMMM\n          MMMMo  oMMMM\n          oNMm-  -mMNs")
}

pub fn instant_os() -> (r: String)
    ensures
        r@ == icon_seq(Distro::InstantOs),
{
    String::from_str("\u{1b}[34m\n     'cx0XWWMMWNKOd:'.\n  .;kNMMMMMMMMMMMMMWNKd'\n 'kNMMMMMMWNNNWMMMMMMMMXo.\n,0MMMMMW0o;'..,:dKWMMMMMWx.\nOMMMMMXl.        .xNMMMMMNo\nWMMMMNl           .kWWMMMMO'\nMMMMMX;            oNWMMMMK,\nNMMMMWo           .OWMMMMMK,\nkWMMMMNd.        ,kWMMMMMMK,\n'kWMMMMWXxl:;;:okNMMMMMMMMK,\n .oXMMMMMMMWWWMMMMMMMMMMMMK,\n   'oKWMMMMMMMMMMMMMMMMMMMK,\n     .;lxOKXXXXXXXXXXXXXXXO;......\n          ................,d0000000kd:.\n                          .kMMMMMMMMMW0;\n                          .kMMMMMMMMMMMX\n                          .xMMMMMMMMMMMW\n                           cXMMMMMMMMMM0\n                            :0WMMMMMMNx,\n                             .o0NMWNOc.")
}

pub fn antergos() -> (r: String)
    ensures
        r@ == icon_seq(Distro::Antergos),
{
    String::from_str("\u{1b}[36m              `.-/::/-``\n            .-/osssssssso/.\n           :osyysssssssyyys+-\n        `.+yyyysssssssssyyyyy+.\n       `/syyyyyssssssssssyyyyys-`\n      `/yhyyyyysss\u{1b}[34m++\u{1b}[36mssosyyyyhhy/`\n     .ohhhyyyys\u{1b}[34mo++/+o\u{1b}[36mso\u{1b}[34m+\u{1b}[36msyy\u{1b}[34m+\u{1b}[36mshhhho.\n    .shhhhys\u{1b}[34moo++//+\u{1b}[36msss\u{1b}[34m+++\u{1b}[36myyy\u{1b}[34m+s\u{1b}[36mhhhhs.\n   -yhhhhs\u{1b}[34m+++++++o\u{1b}[36mssso\u{1b}[34m+++\u{1b}[36myyy\u{1b}[34ms+o\u{1b}[36mhhddy:\n  -yddhhy\u{1b}[34mo+++++o\u{1b}[36msyyss\u{1b}[34m++++\u{1b}[36myyy\u{1b}[34myooy\u{1b}[36mhdddy-\n .yddddhs\u{1b}[34mo++o\u{1b}[36msyyyyys\u{1b}[34m+++++\u{1b}[36myyhh\u{1b}[34msos\u{1b}[36mhddddy`\n`odddddhyosyhyyyyyy\u{1b}[34m++++++\u{1b}[36myhhhyosddddddo\n.dmdddddhhhhhhhyyyo\u{1b}[34m+++++\u{1b}[36mshhhhhohddddmmh.\nddmmdddddhhhhhhhso\u{1b}[34m++++++\u{1b}[36myhhhhhhdddddmmdy\ndmmmdddddddhhhyso\u{1b}[34m++++++\u{1b}[36mshhhhhddddddmmmmh\n-dmmmdddddddhhys\u{1b}[34mo++++o\u{1b}[36mshhhhdddddddmmmmd-\n.smmmmddddddddhhhhhhhhhdddddddddmmmms.\n   `+ydmmmdddddddddddddddddddmmmmdy/.\n      `.:+ooyyddddddddddddyyso+:.`")
}

pub fn anti_x() -> (r: String)
    ensures
        r@ == icon_seq(Distro::AntiX),
{
    String::from_str("\u{1b}[31m\n                    \\\n         , - ~ ^ ~ - \\        /\n     , '              \\ ' ,  /\n   ,                   \\   '/\n  ,                     \\  / ,\n ,___,                   \\/   ,\n /   |   _  _  _|_ o     /\\   ,\n|,   |  / |/ |  |  |    /  \\  ,\n \\,_/\\_/  |  |_/|_/|_/_/    \\,\n   ,                  /     ,\\\n     ,               /  , '   \\\n      ' - , _ _ _ ,  '")
}

pub fn aosc_os() -> (r: String)
    ensures
        r@ == icon_seq(Distro::AoscOs),
{
    String::from_str("\u{1b}[37m             .:+syhhhhys+:.\n         .ohNMMMMMMMMMMMMMMNho.\n      `+mMMMMMMMMMMmdmNMMMMMMMMm+`\n     +NMMMMMMMMMMMM/   `./smMMMMMN+\n   .mMMMMMMMMMMMMMMo        -yMMMMMm.\n  :NMMMMMMMMMMMMMMMs          .hMMMMN:\n .NMMMMhmMMMMMMMMMMm+/-         oMMMMN.\n dMMMMs  ./ymMMMMMMMMMMNy.       sMMMMd\n-MMMMN`      oMMMMMMMMMMMN:      `NMMMM-\n/MMMMh       NMMMMMMMMMMMMm       hMMMM/\n/MMMMh       NMMMMMMMMMMMMm       hMMMM/\n-MMMMN`      :MMMMMMMMMMMMy.     `NMMMM-\n dMMMMs       .yNMMMMMMMMMMMNy/. sMMMMd\n .NMMMMo         -/+sMMMMMMMMMMMmMMMMN.\n  :NMMMMh.          .MMMMMMMMMMMMMMMN:\n   .mMMMMMy-         NMMMMMMMMMMMMMm.\n     +NMMMMMms/.`    mMMMMMMMMMMMN+\n      `+mMMMMMMMMNmddMMMMMMMMMMm+`\n         .ohNMMMMMMMMMMMMMMNho.\n             .:+syhhhhys+:.")
}

pub fn apricity() -> (r: String)
    ensures
        r@ == icon_seq(Distro::Apricity),
{
    String::from_str("\u{1b}[37m                                    ./o-\n          ``...``              `:. -/:\n     `-+ymNMMMMMNmho-`      :sdNNm/\n   `+dMMMMMMMMMMMMMMMmo` sh:.:::-\n  /mMMMMMMMMMMMMMMMMMMMm/`sNd/\n oMMMMMMMMMMMMMMMMMMMMMMMs -`\n:MMMMMMMMMMMMMMMMMMMMMMMMM/\nNMMMMMMMMMMMMMMMMMMMMMMMMMd\nMMMMMMMmdmMMMMMMMMMMMMMMMMd\nMMMMMMy` .mMMMMMMMMMMMmho:`\nMMMMMMNo/sMMMMMMMNdy+-.`-/\nMMMMMMMMMMMMNdy+:.`.:ohmm:\nMMMMMMMmhs+-.`.:+ymNMMMy.\nMMMMMM/`.-/ohmNMMMMMMy-\nMMMMMMNmNNMMMMMMMMmo.\nMMMMMMMMMMMMMMMms:`\nMMMMMMMMMMNds/.\ndhhyys+/-`")
}

pub fn archcraft() -> (r: String)
    ensures
        r@ == icon_seq(Distro::Archcraft),
{
    String::from_str("\u{1b}[36m                   -m:\n                  :NMM+      .+\n                 +MMMMMo    -NMy\n                sMMMMMMMy  -MMMMh`\n               yMMMMMMMMMd` oMMMMd`\n             `dMMMMMMMMMMMm. /MMMMm-\n            .mMMMMMm-dMMMMMN- :NMMMN:\n           -NMMMMMd`  yMMMMMN: .mMMMM/\n          :NMMMMMy     sMMMMMM+ `dMMMMo\n         +MMMMMMs       +MMMMMMs `hMMMMy\n        oMMMMMMMds-      :NMMMMMy  sMMMMh`\n       yMMMMMNoydMMmo`    -NMMMMMd` +MMMMd.\n     `dMMMMMN-   `:yNNs`   .mMMMMMm. /MMMMm-\n    .mMMMMMm.        :hN/   `dMMMMMN- -NMMMN:\n   -NMMMMMd`           -hh`  `yMMMMMN: .mMMMM/\n  :NMMMMMy         `s`   :h.   oMMMMMM+ `-----\n +MMMMMMo         .dMm.   `o.   +MMMMMMo\nsMMMMMM+         .mMMMN:    :`   :NMMMMMy")
}

pub fn arcolinux_small() -> (r: String)
    ensures
        r@ == icon_seq(Distro::ArcolinuxSmall),
{
    String::from_str("\u{1b}[34m          A\n         ooo\n        ooooo\n       ooooooo\n      ooooooooo\n     ooooo ooooo\n    ooooo   ooooo\n   ooooo     ooooo\n  ooooo  \u{1b}[37m<oooooooo>\u{1b}[34m\n ooooo      \u{1b}[37m<oooooo>\u{1b}[34m\nooooo          \u{1b}[37m<oooo>\u{1b}[34m")
}

pub fn arco_linux() -> (r: String)
    ensures
        r@ == icon_seq(Distro::ArcoLinux),
{
    String::from_str("\u{1b}[34m                    /-\n                   ooo:\n                  yoooo/\n                 yooooooo\n                yooooooooo\n               yooooooooooo\n             .yooooooooooooo\n            .oooooooooooooooo\n           .oooooooarcoooooooo\n          .ooooooooo-oooooooooo\n         .ooooooooo-  oooooooooo\n        :ooooooooo.    :ooooooooo\n       :ooooooooo.      :ooooooooo\n      :oooarcooo         .oooarcooo\n     :ooooooooy           .ooooooooo\n    :ooooooooo   \u{1b}[37m/ooooooooooooooooooo\u{1b}[34m\n   :ooooooooo      \u{1b}[37m.-ooooooooooooooooo.\u{1b}[34m\n  ooooooooo-             \u{1b}[37m-ooooooooooooo.\u{1b}[34m\n ooooooooo-                 \u{1b}[37m.-oooooooooo.\u{1b}[34m\nooooooooo.                     \u{1b}[37m-ooooooooo\u{1b}[34m")
}

pub fn arch_small() -> (r: String)
    ensures
        r@ == icon_seq(Distro::ArchSmall),
{
    String::from_str("\u{1b}[36m      /\\\\\n     /  \\\\\n    /\\\\   \\\\\n\u{1b}[37m   /      \\\\\n  /   ,,   \\\\\n /   |  |  -\\\\\n/_-''    ''-_\\\\")
}

pub fn arch_old() -> (r: String)
    ensures
        r@ == icon_seq(Distro::ArchOld),
{
    String::from_str("\u{1b}[36m             __\n         _=(SDGJT=_\n       _GTDJHGGFCVS)\n      ,GTDJGGDTDFBGX0\n\u{1b}[36m     JDJDIJHRORVFSBSVL\u{1b}[37m-=+=,_\n\u{1b}[36m    IJFDUFHJNXIXCDXDSV,\u{1b}[37m  \"DEBL\n\u{1b}[36m   [LKDSDJTDU=OUSCSBFLD.\u{1b}[37m   '?ZWX,\n\u{1b}[36m  ,LMDSDSWH'     `DCBOSI\u{1b}[37m     DRDS],\n\u{1b}[36m  SDDFDFH'         !YEWD,\u{1b}[37m   )HDROD\n\u{1b}[36m !KMDOCG            &GSU|\u{1b}[37m\\_GFHRGO\\'\n\u{1b}[36m HKLSGP'\u{1b}[37m           __\u{1b}[36m\\TKM0\u{1b}[37m\\GHRBV)'\n\u{1b}[36mJSNRVW'\u{1b}[37m       __+MNAEC\u{1b}[36m\\IOI,\u{1b}[37m\\BN'\n\u{1b}[36mHELK['\u{1b}[37m    __,=OFFXCBGHC\u{1b}[36m\\FD)\n\u{1b}[36m?KGHE \u{1b}[37m\\_-#DASDFLSV='\u{1b}[36m    'EF\n'EHTI                    !H\n `0F'                    '!")
}

pub fn arch_box() -> (r: String)
    ensures
        r@ == icon_seq(Distro::ArchBox),
{
    String::from_str("\u{1b}[32m              ...:+oh/:::..\n         ..-/oshhhhhh`   `::::-.\n     .:/ohhhhhhhhhhhh`        `-::::.\n .+shhhhhhhhhhhhhhhhh`             `.::-.\n /`-:+shhhhhhhhhhhhhh`            .-/+shh\n /      .:/ohhhhhhhhh`       .:/ohhhhhhhh\n /           `-:+shhh`  ..:+shhhhhhhhhhhh\n /                 .:ohhhhhhhhhhhhhhhhhhh\n /                  `hhhhhhhhhhhhhhhhhhhh\n /                  `hhhhhhhhhhhhhhhhhhhh\n /                  `hhhhhhhhhhhhhhhhhhhh\n /                  `hhhhhhhhhhhhhhhhhhhh\n /      .+o+        `hhhhhhhhhhhhhhhhhhhh\n /     -hhhhh       `hhhhhhhhhhhhhhhhhhhh\n /     ohhhhho      `hhhhhhhhhhhhhhhhhhhh\n /:::+`hhhhoos`     `hhhhhhhhhhhhhhhhhs+`\n    `--/:`   /:     `hhhhhhhhhhhho/-\n             -/:.   `hhhhhhs+:-`\n                ::::/ho/-`")
}

pub fn arc_hlabs() -> (r: String)
    ensures
        r@ == icon_seq(Distro::ArcHlabs),
{
    String::from_str("\u{1b}[36m                     'c'\n                    'kKk,\n                   .dKKKx.\n                  .oKXKXKd.\n                 .l0XXXXKKo.\n                 c0KXXXXKX0l.\n                :0XKKOxxOKX0l.\n               :OXKOc. .c0XX0l.\n              :OK0o. \u{1b}[31m...\u{1b}[36m'dKKX0l.\n             :OX0c  \u{1b}[31m;xOx'\u{1b}[36m'dKXX0l.\n            :0KKo.\u{1b}[31m.o0XXKd'.\u{1b}[36mlKXX0l.\n           c0XKd.\u{1b}[31m.oKXXXXKd..\u{1b}[36moKKX0l.\n         .c0XKk;\u{1b}[31m.l0K0OO0XKd..\u{1b}[36moKXXKo.\n        .l0XXXk:\u{1b}[31m,dKx,.'l0XKo.\u{1b}[36m.kXXXKo.\n       .o0XXXX0d,\u{1b}[31m:x;   .oKKx'\u{1b}[36m.dXKXXKd.\n      .oKXXXXKK0c.\u{1b}[31m;.    :00c'\u{1b}[36mcOXXXXXKd.\n     .dKXXXXXXXXk,\u{1b}[31m.     cKx'\u{1b}[36m'xKXXXXXXKx'\n    'xKXXXXK0kdl:.     \u{1b}[31m.ok; \u{1b}[36m.cdk0KKXXXKx'\n   'xKK0koc,..         \u{1b}[31m'c, \u{1b}[36m    ..,cok0KKk,\n  ,xko:'.             \u{1b}[31m.. \u{1b}[36m           .':okx;\n .,'.                                   .',.")
}

pub fn arch_strike() -> (r: String)
    ensures
        r@ == icon_seq(Distro::ArchStrike),
{
    String::from_str("\u{1b}[90m                   *   \n                  **.\n                 ****\n                ******\n                *******\n              ** *******\n             **** *******\n            \u{1b}[90m****\u{1b}[36m_____\u{1b}[90m***\u{1b}[36m/\u{1b}[90m*\n           ***\u{1b}[36m/\u{1b}[90m*******\u{1b}[36m//\u{1b}[90m***\n          **\u{1b}[36m/\u{1b}[90m********\u{1b}[36m///\u{1b}[90m*\u{1b}[36m/\u{1b}[90m**\n         **\u{1b}[36m/\u{1b}[90m*******\u{1b}[36m////\u{1b}[90m***\u{1b}[36m/\u{1b}[90m**\n        **\u{1b}[36m/\u{1b}[90m****\u{1b}[36m//////.,\u{1b}[90m****\u{1b}[36m/\u{1b}[90m**\n       ***\u{1b}[36m/\u{1b}[90m*****\u{1b}[36m/////////\u{1b}[90m**\u{1b}[36m/\u{1b}[90m***\n      ****\u{1b}[36m/\u{1b}[90m****    \u{1b}[36m/////\u{1b}[90m***\u{1b}[36m/\u{1b}[90m****\n     ******\u{1b}[36m/\u{1b}[90m***  \u{1b}[36m////   \u{1b}[90m**\u{1b}[36m/\u{1b}[90m******\n    ********\u{1b}[36m/\u{1b}[90m* \u{1b}[36m///      \u{1b}[90m*\u{1b}[36m/\u{1b}[90m********\n  ,******     \u{1b}[36m// ______ /    \u{1b}[90m******,")
}

pub fn x_ferience() -> (r: String)
    ensures
        r@ == icon_seq(Distro::XFerience),
{
    String::from_str("\u{1b}[36m           ``--:::::::-.`\n        .-/+++ooooooooo+++:-`\n     `-/+oooooooooooooooooo++:.\n    -/+oooooo/+ooooooooo+/ooo++:`\n  `/+oo++oo.   .+oooooo+.-: +:-o+-\n `/+o/.  -o.    :oooooo+ ```:.+oo+-\n`:+oo-    -/`   :oooooo+ .`-`+oooo/.\n.+ooo+.    .`   `://///+-+..oooooo+:`\n-+ooo:`                ``.-+oooooo+/`\n-+oo/`                       :+oooo/.\n.+oo:            ..-/. .      -+oo+/`\n`/++-         -:::++::/.      -+oo+-\n ./o:          `:///+-     `./ooo+:`\n  .++-         `` /-`   -:/+oooo+:`\n   .:+/:``          `-:ooooooo++-\n     ./+o+//:...../+oooooooo++:`\n       `:/++ooooooooooooo++/-`\n          `.-//++++++//:-.`\n               ``````")
}

pub fn arch_merge() -> (r: String)
    ensures
        r@ == icon_seq(Distro::ArchMerge),
{
    String::from_str("\u{1b}[36m                    y:\n                  sMN-\n                 +MMMm`\n                /MMMMMd`\n               :NMMMMMMy\n              -NMMMMMMMMs\n             .NMMMMMMMMMM+\n            .mMMMMMMMMMMMM+\n            oNMMMMMMMMMMMMM+\n          `+:-+NMMMMMMMMMMMM+\n          .sNMNhNMMMMMMMMMMMM/\n        `hho/sNMMMMMMMMMMMMMMM/\n       `.`omMMmMMMMMMMMMMMMMMMM+\n      .mMNdshMMMMd+::oNMMMMMMMMMo\n     .mMMMMMMMMM+     `yMMMMMMMMMs\n    .NMMMMMMMMM/        yMMMMMMMMMy\n   -NMMMMMMMMMh         `mNMMMMMMMMd`\n  /NMMMNds+:.`             `-/oymMMMm.\n +Mmy/.                          `:smN:\n/+.                                  -o.")
}

pub fn arch() -> (r: String)
    ensures
        r@ == icon_seq(Distro::Arch),
{
    String::from_str("\u{1b}[36m                   -`\n                  .o+`\n                 `ooo/\n                `+oooo:\n               `+oooooo:\n               -+oooooo+:\n             `/:-:++oooo+:\n            `/++++/+++++++:\n           `/++++++++++++++:\n          `/+++o\u{1b}[36moooooooo\u{1b}[36moooo/`\n\u{1b}[36m         \u{1b}[36m./\u{1b}[36mooosssso++osssssso\u{1b}[36m+`\n\u{1b}[36m        .oossssso-````/ossssss+`\n       -osssssso.      :ssssssso.\n      :osssssss/        osssso+++.\n     /ossssssss/        +ssssooo/-\n   `/ossssso+/:-        -:/+osssso+-\n  `+sso+:-`                 `.-/+oso:\n `++:.                           `-/+/\n .`                                 `/")
}

pub fn artix_small() -> (r: String)
    ensures
        r@ == icon_seq(Distro::ArtixSmall),
{
    String::from_str("\u{1b}[36m      /\\\\\n     /  \\\\\n    /`'.,\\\\\n   /     ',\n  /      ,`\\\\\n /   ,.'`.  \\\\\n/.,'`     `'.\\\\")
}

pub fn artix() -> (r: String)
    ensures
        r@ == icon_seq(Distro::Artix),
{
    String::from_str("\u{1b}[36m                   '\n                  'o'\n                 'ooo'\n                'ooxoo'\n               'ooxxxoo'\n              'oookkxxoo'\n             'oiioxkkxxoo'\n            ':;:iiiioxxxoo'\n               `'.;::ioxxoo'\n          '-.      `':;jiooo'\n         'oooio-..     `'i:io'\n        'ooooxxxxoio:,.   `'-;'\n       'ooooxxxxxkkxoooIi:-.  `'\n      'ooooxxxxxkkkkxoiiiiiji'\n     'ooooxxxxxkxxoiiii:'`     .i'\n    'ooooxxxxxoi:::'`       .;ioxo'\n   'ooooxooi::'`         .:iiixkxxo'\n  'ooooi:'`                `'';ioxxo'\n 'i:'`                          '':io'\n'`                                   `'")
}

pub fn arya() -> (r: String)
    ensures
        r@ == icon_seq(Distro::Arya),
{
    String::from_str("\u{1b}[32m                `oyyy/\u{1b}[31m-yyyyyy+\n\u{1b}[32m               -syyyy/\u{1b}[31m-yyyyyy+\n\u{1b}[32m              .syyyyy/\u{1b}[31m-yyyyyy+\n\u{1b}[32m              :yyyyyy/\u{1b}[31m-yyyyyy+\n\u{1b}[32m           `/ :yyyyyy/\u{1b}[31m-yyyyyy+\n\u{1b}[32m          .+s :yyyyyy/\u{1b}[31m-yyyyyy+\n\u{1b}[32m         .oys :yyyyyy/\u{1b}[31m-yyyyyy+\n\u{1b}[32m        -oyys :yyyyyy/\u{1b}[31m-yyyyyy+\n\u{1b}[32m       :syyys :yyyyyy/\u{1b}[31m-yyyyyy+\n\u{1b}[32m      /syyyys :yyyyyy/\u{1b}[31m-yyyyyy+\n\u{1b}[32m     +yyyyyys :yyyyyy/\u{1b}[31m-yyyyyy+\n\u{1b}[32m   .oyyyyyyo. :yyyyyy/\u{1b}[31m-yyyyyy+ ---------\n\u{1b}[32m  .syyyyyy+`  :yyyyyy/\u{1b}[31m-yyyyy+-+syyyyyyyy\n\u{1b}[32m -syyyyyy/    :yyyyyy/\u{1b}[31m-yyys:.syyyyyyyyyy\n\u{1b}[32m:syyyyyy/     :yyyyyy/\u{1b}[31m-yyo.:syyyyyyyyyyy")
}

pub fn bedrock() -> (r: String)
    ensures
        r@ == icon_seq(Distro::Bedrock),
{
    String::from_str("\u{1b}[90m--------------------------------------\n--------------------------------------\n--------------------------------------\n---\u{1b}[37m\\\\\\\\\\\\\\\\\\\\\\\\\\\\\\\\\\\\\\\\\\\\\\\\\u{1b}[90m-----------------------\n----\u{1b}[37m\\\\\\\\\\\\      \\\\\\\\\\\\\u{1b}[90m----------------------\n-----\u{1b}[37m\\\\\\\\\\\\      \\\\\\\\\\\\\u{1b}[90m---------------------\n------\u{1b}[37m\\\\\\\\\\\\      \\\\\\\\\\\\\\\\\\\\\\\\\\\\\\\\\\\\\\\\\\\\\\\\\\\\\\\\\\\\\\\\\\\\\u{1b}[90m------\n-------\u{1b}[37m\\\\\\\\\\\\                    \\\\\\\\\\\\\u{1b}[90m-----\n--------\u{1b}[37m\\\\\\\\\\\\                    \\\\\\\\\\\\\u{1b}[90m----\n---------\u{1b}[37m\\\\\\\\\\\\        ______      \\\\\\\\\\\\\u{1b}[90m---\n----------\u{1b}[37m\\\\\\\\\\\\                   ///\u{1b}[90m---\n-----------\u{1b}[37m\\\\\\\\\\\\                 ///\u{1b}[90m----\n------------\u{1b}[37m\\\\\\\\\\\\               ///\u{1b}[90m-----\n-------------\u{1b}[37m\\\\\\\\\\\\////////////////\u{1b}[90m------\n--------------------------------------\n--------------------------------------\n--------------------------------------")
}

pub fn bitrig() -> (r: String)
    ensures
        r@ == icon_seq(Distro::Bitrig),
{
    String::from_str("\u{1b}[32m   `hMMMMN+\n   -MMo-dMd`\n   oMN- oMN`\n   yMd  /NM:\n  .mMmyyhMMs\n  :NMMMhsmMh\n  +MNhNNoyMm-\n  hMd.-hMNMN:\n  mMmsssmMMMo\n .MMdyyhNMMMd\n oMN.`/dMddMN`\n yMm/hNm+./MM/\n.dMMMmo.``.NMo\n:NMMMNmmmmmMMh\n/MN/-------oNN:\nhMd.       .dMh\nsm/         /ms")
}

pub fn black_arch() -> (r: String)
    ensures
        r@ == icon_seq(Distro::BlackArch),
{
    String::from_str("\u{1b}[30m                   00\n                   11\n                  ====\u{1b}[31m\n                  .\u{1b}[30m//\u{1b}[31m\n                 `o\u{1b}[30m//\u{1b}[31m:\n                `+o\u{1b}[30m//\u{1b}[31mo:\n               `+oo\u{1b}[30m//\u{1b}[31moo:\n               -+oo\u{1b}[30m//\u{1b}[31moo+:\n             `/:-:+\u{1b}[30m//\u{1b}[31mooo+:\n            `/+++++\u{1b}[30m//\u{1b}[31m+++++:\n           `/++++++\u{1b}[30m//\u{1b}[31m++++++:\n          `/+++o\u{1b}[31mooo\u{1b}[30m//\u{1b}[31mooo\u{1b}[31moooo/`\n\u{1b}[31m         \u{1b}[31m./\u{1b}[31mooosssso\u{1b}[30m//\u{1b}[31mosssssso\u{1b}[31m+`\n\u{1b}[31m        .oossssso-`\u{1b}[30m//\u{1b}[31m`/ossssss+`\n       -osssssso.  \u{1b}[30m//\u{1b}[31m  :ssssssso.\n      :osssssss/   \u{1b}[30m//\u{1b}[31m   osssso+++.\n     /ossssssss/   \u{1b}[30m//\u{1b}[31m   +ssssooo/-\n   `/ossssso+/:-   \u{1b}[30m//\u{1b}[31m   -:/+osssso+-\n  `+sso+:-`        \u{1b}[30m//\u{1b}[31m       `.-/+oso:\n `++:.             \u{1b}[30m//\u{1b}[31m            `-/+/\n .`                \u{1b}[30m/\u{1b}[31m                `/")
}

pub fn blag() -> (r: String)
    ensures
        r@ == icon_seq(Distro::Blag),
{
    String::from_str("\u{1b}[35m             d\n            ,MK:\n            xMMMX:\n           .NMMMMMX;\n           lMMMMMMMM0clodkO0KXWW:\n           KMMMMMMMMMMMMMMMMMMX'\n      .;d0NMMMMMMMMMMMMMMMMMMK.\n .;dONMMMMMMMMMMMMMMMMMMMMMMx\n'dKMMMMMMMMMMMMMMMMMMMMMMMMl\n   .:xKWMMMMMMMMMMMMMMMMMMM0.\n       .:xNMMMMMMMMMMMMMMMMMK.\n          lMMMMMMMMMMMMMMMMMMK.\n          ,MMMMMMMMWkOXWMMMMMM0\n          .NMMMMMNd.     `':ldko\n           OMMMK:\n           oWk,\n           ;:")
}

pub fn blank_on() -> (r: String)
    ensures
        r@ == icon_seq(Distro::BlankOn),
{
    String::from_str("\u{1b}[37m        `./ohdNMMMMNmho+.` \u{1b}[31m       .+oo:`\n\u{1b}[37m      -smMMMMMMMMMMMMMMMMmy-`    \u{1b}[31m`yyyyy+\n\u{1b}[37m   `:dMMMMMMMMMMMMMMMMMMMMMMd/`  \u{1b}[31m`yyyyys\n\u{1b}[37m  .hMMMMMMMNmhso/++symNMMMMMMMh- \u{1b}[31m`yyyyys\n\u{1b}[37m -mMMMMMMms-`         -omMMMMMMN-\u{1b}[31m.yyyyys\n\u{1b}[37m.mMMMMMMy.              .yMMMMMMm:\u{1b}[31myyyyys\n\u{1b}[37msMMMMMMy                 `sMMMMMMh\u{1b}[31myyyyys\n\u{1b}[37mNMMMMMN:                  .NMMMMMN\u{1b}[31myyyyys\n\u{1b}[37mMMMMMMm.                   NMMMMMN\u{1b}[31myyyyys\n\u{1b}[37mhMMMMMM+                  /MMMMMMN\u{1b}[31myyyyys\n\u{1b}[37m:NMMMMMN:                :mMMMMMM+\u{1b}[31myyyyys\n\u{1b}[37m oMMMMMMNs-            .sNMMMMMMs.\u{1b}[31myyyyys\n\u{1b}[37m  +MMMMMMMNho:.`  `.:ohNMMMMMMNo \u{1b}[31m`yyyyys\n\u{1b}[37m   -hMMMMMMMMNNNmmNNNMMMMMMMMh-  \u{1b}[31m`yyyyys\n\u{1b}[37m     :yNMMMMMMMMMMMMMMMMMMNy:`   \u{1b}[31m`yyyyys\n\u{1b}[37m       .:sdNMMMMMMMMMMNds/.      \u{1b}[31m`yyyyyo\n\u{1b}[37m           `.:/++++/:.`           \u{1b}[31m:oys+.")
}

pub fn blue_light() -> (r: String)
    ensures
        r@ == icon_seq(Distro::BlueLight),
{
    String::from_str("\u{1b}[37m              oMMNMMMMMMMMMMMMMMMMMMMMMM\n              oMMMMMMMMMMMMMMMMMMMMMMMMM\n              oMMMMMMMMMMMMMMMMMMMMMMMMM\n              oMMMMMMMMMMMMMMMMMMMMMMMMM\n              -+++++++++++++++++++++++mM\u{1b}[34m\n             ```````````````````````..\u{1b}[37mdM\u{1b}[34m\n           ```````````````````````....\u{1b}[37mdM\u{1b}[34m\n         ```````````````````````......\u{1b}[37mdM\u{1b}[34m\n       ```````````````````````........\u{1b}[37mdM\u{1b}[34m\n     ```````````````````````..........\u{1b}[37mdM\u{1b}[34m\n   ```````````````````````............\u{1b}[37mdM\u{1b}[34m\n.::::::::::::::::::::::-..............\u{1b}[37mdM\u{1b}[34m\n `-+yyyyyyyyyyyyyyyyyyyo............\u{1b}[37m+mMM\u{1b}[34m\n     -+yyyyyyyyyyyyyyyyo..........\u{1b}[37m+mMMMM\u{1b}[34m\n        ./syyyyyyyyyyyyo........\u{1b}[37m+mMMMMMM\u{1b}[34m\n           ./oyyyyyyyyyo......\u{1b}[37m+mMMMMMMMM\u{1b}[34m\n              omdyyyyyyo....\u{1b}[37m+mMMMMMMMMMM\u{1b}[34m\n              \u{1b}[37moMMM\u{1b}[34mmdhyyo..\u{1b}[37m+mMMMMMMMMMMMM\n              oNNNNNNm\u{1b}[34mdso\u{1b}[37mmMMMMMMMMMMMMMM")
}

pub fn bonsai() -> (r: String)
    ensures
        r@ == icon_seq(Distro::Bonsai),
{
    String::from_str("\u{1b}[32m   ,####,\n   \u{1b}[32m#######,  \u{1b}[32m,#####,\n   \u{1b}[32m#####',#  \u{1b}[32m'######\n    \u{1b}[32m''###'\u{1b}[33m';,,,'\u{1b}[32m###'\n   \u{1b}[33m       ,;  ''''\n   \u{1b}[33m      ;;;   \u{1b}[32m,#####,\n   \u{1b}[33m     ;;;'  ,,;\u{1b}[32m;;###\n   \u{1b}[33m     ';;;;''\u{1b}[32m'####'\n   \u{1b}[33m      ;;;\n   \u{1b}[33m   ,.;;';'',,,\n   \u{1b}[33m  '     '\n\u{1b}[36m #\n #                        O\n ##, ,##,',##, ,##  ,#,   ,\n # # #  # #''# #,,  # #   #\n '#' '##' #  #  ,,# '##;, #")
}

pub fn bunsen_labs() -> (r: String)
    ensures
        r@ == icon_seq(Distro::BunsenLabs),
{
    String::from_str("\u{1b}[37m        `++\n      -yMMs\n    `yMMMMN`\n   -NMMMMMMm.\n  :MMMMMMMMMN-\n .NMMMMMMMMMMM/\n yMMMMMMMMMMMMM/\n`MMMMMMNMMMMMMMN.\n-MMMMN+ /mMMMMMMy\n-MMMm`   `dMMMMMM\n`MMN.     .NMMMMM.\n hMy       yMMMMM`\n -Mo       +MMMMN\n  /o       +MMMMs\n           +MMMN`\n           hMMM:\n          `NMM/\n          +MN:\n          mh.\n         -/")
}

pub fn calculate() -> (r: String)
    ensures
        r@ == icon_seq(Distro::Calculate),
{
    String::from_str("\u{1b}[37m                              ......\n                           ,,+++++++,.\n                         .,,,....,,,\u{1b}[33m+**+,,.\u{1b}[37m\n                       ............,\u{1b}[33m++++,,,\u{1b}[37m\n                      ...............\n                    ......,,,........\n                  .....+*#####+,,,*+.\n              .....,*###############,..,,,,,,..\n           ......,*#################*..,,,,,..,,,..\n         .,,....*####################+***+,,,,...,++,\n       .,,..,..*#####################*,\n     ,+,.+*..*#######################.\n   ,+,,+*+..,########################*\n.,++++++.  ..+##**###################+\n.....      ..+##***#################*.\n           .,.*#*****##############*.\n           ..,,*********#####****+.\n     \u{1b}[33m.,++*****+++\u{1b}[37m*****************\u{1b}[33m+++++,.\u{1b}[37m\n      \u{1b}[33m,++++++**+++++\u{1b}[37m***********\u{1b}[33m+++++++++,\u{1b}[37m\n     \u{1b}[33m.,,,,++++,..  .,,,,,.....,+++,.,,\u{1b}[37m")
}

pub fn carbs() -> (r: String)
    ensures
        r@ == icon_seq(Distro::Carbs),
{
    String::from_str("\u{1b}[35m             ..........\n          ..,;:ccccccc:;'..\n       ..,clllc:;;;;;:cllc,.\n      .,cllc,...     ..';;'.\n     .;lol;..           ..\n    .,lol;.\n    .coo:.\n   .'lol,.\n   .,lol,.\n   .,lol,.\n    'col;.\n    .:ooc'.\n    .'col:.\n     .'cllc'..          .''.\n      ..:lolc,'.......',cll,.\n        ..;cllllccccclllc;'.\n          ...',;;;;;;,,...\n                .....")
}

pub fn cbl_mariner() -> (r: String)
    ensures
        r@ == icon_seq(Distro::CblMariner),
{
    String::from_str("\u{1b}[36m                    .\n                  :-  .\n                :==. .=:\n              :===:  -==:\n            :-===:  .====:\n          :-====-   -=====:\n         -======   :=======:\n        -======.  .=========:\n       -======:   -==========.\n      -======-    -===========.\n     :======-      :===========.\n    :=======.       .-==========.\n   :=======:          -==========.\n  :=======-            :==========.\n :=======-              .-========-\n:--------.                :========-\n                    ..:::--=========-\n            ..::---================-=-")
}

pub fn cel_os() -> (r: String)
    ensures
        r@ == icon_seq(Distro::CelOs),
{
    String::from_str("\u{1b}[35m                     .,cmmmmmmmmmmmc,.\n                .,cmMMMMMMMMMMMMMMMMMMMMmc.\n             .cMMMMMMMMMMMMMMMMMMMMMMMMMMMmc.\n           .cMMMMMMMMMMMMMMMMMMMMMMMMMMMMMMMMc.\n         ,:MMM \u{1b}[30m####################################\u{1b}[35m\n        cMMMMMMmmmmmmmmmmmmmmmmmmmmmmmmmmmmmmmmmc.\n       .MMMMMMMMMMMMMMMMMMMMMMMMMMMMMMMMMMMMMMMMMM.\n      .MMMMMMMMMMMMMMMMMMMMMMMMMMMMMMMMMMMMMMMMMMMc\n      \"******************************MMMMMMMMMMMMMc:\n\u{1b}[30m#################################### \u{1b}[35mMMMMMMMMMMMMMc\n      \"MMMMMMMMMMMMMMMMMMMMMMMMMMMMMMMMMMMMMMMMMMM:\n       \"MMMMMMMMMMMMMMMMMMMMMMMMMMMMMMMMMMMMMMMMMM\"\n       'MMMMMMMMM*******************************:\n        \\\"MMMMMM \u{1b}[30m#####################################\n         \u{1b}[35m`:MMMMMMmmmmmmmmmmmmmmmmmmmmmmmmmmmmm;\n           `\"MMMMMMMMMMMMMMMMMMMMMMMMMMMMMMMM\"\n             `\":MMMMMMMMMMMMMMMMMMMMMMMMM;'\n                `\":MMMMMMMMMMMMMMMMMMM:\"\n                     \"************\"")
}

pub fn centos_small() -> (r: String)
    ensures
        r@ == icon_seq(Distro::CentosSmall),
{
    String::from_str("\u{1b}[32m ____\u{1b}[33m^\u{1b}[35m____\n\u{1b}[32m |\\\\  \u{1b}[33m|\u{1b}[35m  /|\n\u{1b}[32m | \\\\ \u{1b}[33m|\u{1b}[35m / |\n\u{1b}[35m<---- \u{1b}[34m---->\n\u{1b}[34m | / \u{1b}[32m|\u{1b}[33m \\\\ |\n\u{1b}[34m |/__\u{1b}[32m|\u{1b}[33m__\\\\|\n\u{1b}[32m     v")
}

pub fn cent_os() -> (r: String)
    ensures
        r@ == icon_seq(Distro::CentOs),
{
    String::from_str("\u{1b}[33m                 ..\n               .PLTJ.\n              <><><><>\n     \u{1b}[32mKKSSV' 4KKK \u{1b}[33mLJ\u{1b}[35m KKKL.'VSSKK\n     \u{1b}[32mKKV' 4KKKKK \u{1b}[33mLJ\u{1b}[35m KKKKAL 'VKK\n     \u{1b}[32mV' ' 'VKKKK \u{1b}[33mLJ\u{1b}[35m KKKKV' ' 'V\n     \u{1b}[32m.4MA.' 'VKK \u{1b}[33mLJ\u{1b}[35m KKV' '.4Mb.\n\u{1b}[35m   . \u{1b}[32mKKKKKA.' 'V \u{1b}[33mLJ\u{1b}[35m V' '.4KKKKK \u{1b}[34m.\n\u{1b}[35m .4D \u{1b}[32mKKKKKKKA.'' \u{1b}[33mLJ\u{1b}[35m ''.4KKKKKKK \u{1b}[34mFA.\n\u{1b}[35m<QDD ++++++++++++  \u{1b}[34m++++++++++++ GFD>\n\u{1b}[35m 'VD \u{1b}[34mKKKKKKKK'.. \u{1b}[32mLJ \u{1b}[33m..'KKKKKKKK \u{1b}[34mFV\n\u{1b}[35m   ' \u{1b}[34mVKKKKK'. .4 \u{1b}[32mLJ \u{1b}[33mK. .'KKKKKV \u{1b}[34m'\n     \u{1b}[34m 'VK'. .4KK \u{1b}[32mLJ \u{1b}[33mKKA. .'KV'\n     \u{1b}[34mA. . .4KKKK \u{1b}[32mLJ \u{1b}[33mKKKKA. . .4\n     \u{1b}[34mKKA. 'KKKKK \u{1b}[32mLJ \u{1b}[33mKKKKK' .4KK\n     \u{1b}[34mKKSSA. VKKK \u{1b}[32mLJ \u{1b}[33mKKKV .4SSKK\n\u{1b}[32m              <><><><>\n               'MKKM'\n                 ''")
}

pub fn chakra() -> (r: String)
    ensures
        r@ == icon_seq(Distro::Chakra),
{
    String::from_str("\u{1b}[34m     _ _ _        \"kkkkkkkk.\n   ,kkkkkkkk.,    'kkkkkkkkk,\n   ,kkkkkkkkkkkk., 'kkkkkkkkk.\n  ,kkkkkkkkkkkkkkkk,'kkkkkkkk,\n ,kkkkkkkkkkkkkkkkkkk'kkkkkkk.\n  \"''\"''',;::,,\"''kkk''kkkkk;   __\n      ,kkkkkkkkkk, \"k''kkkkk' ,kkkk\n    ,kkkkkkk' ., ' .: 'kkkk',kkkkkk\n  ,kkkkkkkk'.k'   ,  ,kkkk;kkkkkkkkk\n ,kkkkkkkk';kk 'k  \"'k',kkkkkkkkkkkk\n.kkkkkkkkk.kkkk.'kkkkkkkkkkkkkkkkkk'\n;kkkkkkkk''kkkkkk;'kkkkkkkkkkkkk''\n'kkkkkkk; 'kkkkkkkk.,\"\"''\"''\"\"\n  ''kkkk;  'kkkkkkkkkk.,\n     ';'    'kkkkkkkkkkkk.,\n             ';kkkkkkkkkk'\n               ';kkkkkk'\n                  \"''\"")
}

pub fn chalet_os() -> (r: String)
    ensures
        r@ == icon_seq(Distro::ChaletOs),
{
    String::from_str("\u{1b}[34m             `.//+osso+/:``\n         `/sdNNmhyssssydmNNdo:`\n       :hNmy+-`          .-+hNNs-\n     /mMh/`       `+:`       `+dMd:\n   .hMd-        -sNNMNo.  /yyy  /mMs`\n  -NM+       `/dMd/--omNh::dMM   `yMd`\n .NN+      .sNNs:/dMNy:/hNmo/s     yMd`\n hMs    `/hNd+-smMMMMMMd+:omNy-    `dMo\n:NM.  .omMy:/hNMMMMMMMMMMNy:/hMd+`  :Md`\n/Md` `sm+.omMMMMMMMMMMMMMMMMd/-sm+  .MN:\n/Md`      MMMMMMMMMMMMMMMMMMMN      .MN:\n:NN.      MMMMMMm....--NMMMMMN      -Mm.\n`dMo      MMMMMMd      mMMMMMN      hMs\n -MN:     MMMMMMd      mMMMMMN     oMm`\n  :NM:    MMMMMMd      mMMMMMN    +Mm-\n   -mMy.  mmmmmmh      dmmmmmh  -hMh.\n     oNNs-                    :yMm/\n      .+mMdo:`            `:smMd/`\n         -ohNNmhsoo++osshmNNh+.\n            `./+syyhhyys+:``")
}

pub fn chapeau() -> (r: String)
    ensures
        r@ == icon_seq(Distro::Chapeau),
{
    String::from_str("\u{1b}[32m               .-/-.\n            ////////.\n          ////////\u{1b}[37my+\u{1b}[32m//.\n        ////////\u{1b}[37mmMN\u{1b}[32m/////.\n      ////////\u{1b}[37mmMN+\u{1b}[32m////////.\n    ////////////////////////.\n  /////////+\u{1b}[37mshhddhyo\u{1b}[32m+////////.\n ////////\u{1b}[37mymMNmdhhdmNNdo\u{1b}[32m///////.\n///////+\u{1b}[37mmMms\u{1b}[32m////////\u{1b}[37mhNMh\u{1b}[32m///////.\n///////\u{1b}[37mNMm+\u{1b}[32m//////////\u{1b}[37msMMh\u{1b}[32m///////\n//////\u{1b}[37moMMNmmmmmmmmmmmmMMm\u{1b}[32m///////\n//////\u{1b}[37m+MMmssssssssssssss+\u{1b}[32m///////\n`//////\u{1b}[37myMMy\u{1b}[32m////////////////////\n `//////\u{1b}[37msmMNhso++oydNm\u{1b}[32m////////\n  `///////\u{1b}[37mohmNMMMNNdy+\u{1b}[32m///////\n    `//////////\u{1b}[37m++\u{1b}[32m//////////\n       `////////////////.\n           -////////-")
}

pub fn chrom() -> (r: String)
    ensures
        r@ == icon_seq(Distro::Chrom),
{
    String::from_str("\u{1b}[31m            .,:loool:,.\n        .,coooooooooooooc,.\n     .,lllllllllllllllllllll,.\n    ;ccccccccccccccccccccccccc;\n\u{1b}[32m  '\u{1b}[31mccccccccccccccccccccccccccccc.\n\u{1b}[32m ,oo\u{1b}[31mc::::::::okO\u{1b}[37m000\u{1b}[33m0OOkkkkkkkkkkk:\n\u{1b}[32m.ooool\u{1b}[31m;;;;:x\u{1b}[37mK0\u{1b}[34mkxxxxxk\u{1b}[37m0X\u{1b}[33mK0000000000.\n\u{1b}[32m:oooool\u{1b}[31m;,;O\u{1b}[37mK\u{1b}[34mddddddddddd\u{1b}[37mKX\u{1b}[33m000000000d\n\u{1b}[32mlllllool\u{1b}[31m;l\u{1b}[37mN\u{1b}[34mdllllllllllld\u{1b}[37mN\u{1b}[33mK000000000\n\u{1b}[32mlllllllll\u{1b}[31mo\u{1b}[37mM\u{1b}[34mdccccccccccco\u{1b}[37mW\u{1b}[33mK000000000\n\u{1b}[32m;cllllllllX\u{1b}[37mX\u{1b}[34mc:::::::::c\u{1b}[37m0X\u{1b}[33m000000000d\n\u{1b}[32m.ccccllllllO\u{1b}[37mNk\u{1b}[34mc;,,,;cx\u{1b}[37mKK\u{1b}[33m0000000000.\n\u{1b}[32m .cccccclllllxOO\u{1b}[37mOOO\u{1b}[32mOkx\u{1b}[33mO0000000000;\n\u{1b}[32m  .:ccccccccllllllllo\u{1b}[33mO0000000OOO,\n\u{1b}[32m    ,:ccccccccclllcd\u{1b}[33m0000OOOOOOl.\n\u{1b}[32m      '::ccccccccc\u{1b}[33mdOOOOOOOkx:.\n\u{1b}[32m        ..,::cccc\u{1b}[33mxOOOkkko;.\n\u{1b}[32m            ..,:\u{1b}[33mdOkxl:.")
}

pub fn cleanjaro_small() -> (r: String)
    ensures
        r@ == icon_seq(Distro::CleanjaroSmall),
{
    String::from_str("\u{1b}[37m█████ ██████████\n█████ ██████████\n█████\n█████\n█████\n████████████████\n████████████████")
}

pub fn cleanjaro() -> (r: String)
    ensures
        r@ == icon_seq(Distro::Cleanjaro),
{
    String::from_str("\u{1b}[37m███████▌ ████████████████\n███████▌ ████████████████\n███████▌ ████████████████\n███████▌\n███████▌\n███████▌\n███████▌\n███████▌\n█████████████████████████\n█████████████████████████\n█████████████████████████\n▀▀▀▀▀▀▀▀▀▀▀▀▀▀▀▀▀▀▀▀▀▀▀▀▀")
}

pub fn clear_os() -> (r: String)
    ensures
        r@ == icon_seq(Distro::ClearOs),
{
    String::from_str("\u{1b}[32m             `.--::::::--.`\n         .-:////////////////:-.\n      `-////////////////////////-`\n     -////////////////////////////-\n   `//////////////-..-//////////////`\n  ./////////////:      ://///////////.\n `//////:..-////:      :////-..-//////`\n ://////`    -///:.``.:///-`    ://///:\n`///////:.     -////////-`    `:///////`\n.//:--////:.     -////-`    `:////--://.\n./:    .////:.     --`    `:////-    :/.\n`//-`    .////:.        `:////-    `-//`\n :///-`    .////:.    `:////-    `-///:\n `/////-`    -///:    :///-    `-/////`\n  `//////-   `///:    :///`   .//////`\n   `:////:   `///:    :///`   -////:`\n     .://:   `///:    :///`   -//:.\n       .::   `///:    :///`   -:.\n             `///:    :///`\n              `...    ...`")
}

pub fn clear_linux_os() -> (r: String)
    ensures
        r@ == icon_seq(Distro::ClearLinuxOs),
{
    String::from_str("\u{1b}[34m          BBB\n       BBBBBBBBB\n     BBBBBBBBBBBBBBB\n   BBBBBBBBBBBBBBBBBBBB\n   BBBBBBBBBBB         BBB\n  BBBBBBBB\u{1b}[33mYYYYY\n\u{1b}[34m  BBBBBBBB\u{1b}[33mYYYYYY\n\u{1b}[34m  BBBBBBBB\u{1b}[33mYYYYYYY\n\u{1b}[34m  BBBBBBBBB\u{1b}[33mYYYYY\u{1b}[37mW\n\u{1b}[36m GG\u{1b}[34mBBBBBBBY\u{1b}[33mYYYY\u{1b}[37mWWW\n\u{1b}[36m GGG\u{1b}[34mBBBBBBB\u{1b}[33mYY\u{1b}[37mWWWWWWWW\n\u{1b}[36m GGGGGG\u{1b}[34mBBBBBB\u{1b}[37mWWWWWWWW\n\u{1b}[36m GGGGGGGG\u{1b}[34mBBBB\u{1b}[37mWWWWWWWW\n\u{1b}[36mGGGGGGGGGGG\u{1b}[34mBBB\u{1b}[37mWWWWWWW\n\u{1b}[36mGGGGGGGGGGGGG\u{1b}[34mB\u{1b}[37mWWWWWW\n\u{1b}[36mGGGGGGGG\u{1b}[37mWWWWWWWWWWW\n\u{1b}[36mGG\u{1b}[37mWWWWWWWWWWWWWWWW\n WWWWWWWWWWWWWWWW\n      WWWWWWWWWW\n          WWW")
}

pub fn clover() -> (r: String)
    ensures
        r@ == icon_seq(Distro::Clover),
{
    String::from_str("\u{1b}[32m               `omo``omo`\n             `oNMMMNNMMMNo`\n           `oNMMMMMMMMMMMMNo`\n          oNMMMMMMMMMMMMMMMMNo\n          `sNMMMMMMMMMMMMMMNs`\n     `omo`  `sNMMMMMMMMMMNs`  `omo`\n   `oNMMMNo`  `sNMMMMMMNs`  `oNMMMNo`\n `oNMMMMMMMNo`  `oNMMNs`  `oNMMMMMMMNo`\noNMMMMMMMMMMMNo`  `sy`  `oNMMMMMMMMMMMNo\n`sNMMMMMMMMMMMMNo.\u{1b}[36moNNs\u{1b}[32m.oNMMMMMMMMMMMMNs`\n`oNMMMMMMMMMMMMNs.\u{1b}[36moNNs\u{1b}[32m.oNMMMMMMMMMMMMNo`\noNMMMMMMMMMMMNs`  `sy`  `oNMMMMMMMMMMMNo\n `oNMMMMMMMNs`  `oNMMNo`  `oNMMMMMMMNs`\n   `oNMMMNs`  `sNMMMMMMNs`  `oNMMMNs`\n     `oNs`  `sNMMMMMMMMMMNs`  `oNs`\n          `sNMMMMMMMMMMMMMMNs`\n          +NMMMMMMMMMMMMMMMMNo\n           `oNMMMMMMMMMMMMNo`\n             `oNMMMNNMMMNs`\n               `omo``oNs`")
}

pub fn condres() -> (r: String)
    ensures
        r@ == icon_seq(Distro::Condres),
{
    String::from_str("\u{1b}[32msyyyyyyyyyyyyyyyyyyyyyyyyyyyyyyyyyyy+\u{1b}[36m.+.\n\u{1b}[32m`oyyyyyyyyyyyyyyyyyyyyyyyyyyyyyyyyy+\u{1b}[36m:++.\n\u{1b}[33m/o\u{1b}[32m+oyyyyyyyyyyyyyyyyyyyyyyyyyyyyyy/\u{1b}[36moo++.\n\u{1b}[33m/y+\u{1b}[32msyyyyyyyyyyyyyyyyyyyyyyyyyyyyy\u{1b}[36m+ooo++.\n\u{1b}[33m/hy+\u{1b}[32moyyyhhhhhhhhhhhhhhyyyyyyyyy\u{1b}[36m+oo+++++.\n\u{1b}[33m/hhh+\u{1b}[32mshhhhhdddddhhhhhhhyyyyyyy\u{1b}[36m+oo++++++.\n\u{1b}[33m/hhdd+\u{1b}[32moddddddddddddhhhhhyyyys\u{1b}[36m+oo+++++++.\n\u{1b}[33m/hhddd+\u{1b}[32modmmmdddddddhhhhyyyy\u{1b}[36m+ooo++++++++.\n\u{1b}[33m/hhdddmo\u{1b}[32modmmmdddddhhhhhyyy\u{1b}[36m+oooo++++++++.\n\u{1b}[33m/hdddmmms\u{1b}[32m/dmdddddhhhhyyys\u{1b}[36m+oooo+++++++++.\n\u{1b}[33m/hddddmmmy\u{1b}[32m/hdddhhhhyyyyo\u{1b}[36m+oooo++++++++++:\n\u{1b}[33m/hhdddmmmmy\u{1b}[32m:yhhhhyyyyy+\u{1b}[36m+oooo+++++++++++:\n\u{1b}[33m/hhddddddddy\u{1b}[32m-syyyyyys+\u{1b}[36mooooo++++++++++++:\n\u{1b}[33m/hhhddddddddy\u{1b}[32m-+yyyy+\u{1b}[36m/ooooo+++++++++++++:\n\u{1b}[33m/hhhhhdddddhhy\u{1b}[32m./yo:\u{1b}[36m+oooooo+++++++++++++/\n\u{1b}[33m/hhhhhhhhhhhhhy\u{1b}[32m:-.\u{1b}[36m+sooooo+++++++++++///:\n\u{1b}[33m:sssssssssssso++\u{1b}[32m\u{1b}[36m`:/:--------.````````")
}

pub fn container_linux_by_core_os() -> (r: String)
    ensures
        r@ == icon_seq(Distro::ContainerLinuxByCoreOs),
{
    String::from_str("\u{1b}[34m                .....\n          .';:cccccccc:;'.\n        ':ccccclc\u{1b}[31mlllllllll\u{1b}[34mcc:.\n     .;cccccccc\u{1b}[31mlllllllllllllll\u{1b}[34mc,\n    ;clllccccc\u{1b}[31mllllllllllllllllll\u{1b}[34mc,\n  .cllclccccc\u{1b}[31mlllll\u{1b}[37mlll\u{1b}[31mllllllllllll\u{1b}[34mc:\n  ccclclcccc\u{1b}[31mcllll\u{1b}[37mkWMMNKk\u{1b}[31mllllllllll\u{1b}[34mc:\n :ccclclcccc\u{1b}[31mllll\u{1b}[37moWMMMMMMWO\u{1b}[31mlllllllll\u{1b}[34mc,\n.ccllllllccc\u{1b}[31mclll\u{1b}[37mOMMMMMMMMM0\u{1b}[31mlllllllll\u{1b}[34mc\n.lllllclcccc\u{1b}[31mllll\u{1b}[37mKMMMMMMMMMMo\u{1b}[31mllllllll\u{1b}[34mc.\n.lllllllcccc\u{1b}[31mclll\u{1b}[37mKMMMMMMMMN0\u{1b}[31mlllllllll\u{1b}[34mc.\n.cclllllcccc\u{1b}[31mlllld\u{1b}[37mxkkxxdo\u{1b}[31mllllllllllc\u{1b}[34mlc\n :cccllllllcccc\u{1b}[31mlllccllllcclccc\u{1b}[34mcccccc;\n .ccclllllllcccccccc\u{1b}[31mlll\u{1b}[34mccccclccccccc\n  .cllllllllllclcccclccclccllllcllc\n    :cllllllllccclcllllllllllllcc;\n     .cccccccccccccclcccccccccc:.\n       .;cccclccccccllllllccc,.\n          .';ccccclllccc:;..\n                .....")
}

pub fn crux_small() -> (r: String)
    ensures
        r@ == icon_seq(Distro::CruxSmall),
{
    String::from_str("\u{1b}[34m    ___\n   (\u{1b}[37m.· \u{1b}[34m|\n   (\u{1b}[35m<> \u{1b}[34m|\n  / \u{1b}[37m__  \u{1b}[34m\\\\\n ( \u{1b}[37m/  \\\\ \u{1b}[34m/|\n\u{1b}[35m_\u{1b}[34m/\\\\ \u{1b}[37m__)\u{1b}[34m/\u{1b}[35m_\u{1b}[34m)\n\u{1b}[35m\\/\u{1b}[34m-____\u{1b}[35m\\/")
}

pub fn crux() -> (r: String)
    ensures
        r@ == icon_seq(Distro::Crux),
{
    String::from_str("\u{1b}[34m         odddd\n      oddxkkkxxdoo\n     ddcoddxxxdoool\n     xdclodod  olol\n     xoc  xdd  olol\n     xdc  \u{1b}[35mk00\u{1b}[34mOkdlol\n     xxd\u{1b}[35mkOKKKOkd\u{1b}[34mldd\n     xdco\u{1b}[35mxOkdlo\u{1b}[34mdldd\n     ddc:cl\u{1b}[35mlll\u{1b}[34moooodo\n   odxxdd\u{1b}[37mxkO000kx\u{1b}[34mooxdo\n  oxdd\u{1b}[37mx0NMMMMMMWW0od\u{1b}[34mkkxo\n oooxd\u{1b}[37m0WMMMMMMMMMW0o\u{1b}[34mdxkx\ndocldkXW\u{1b}[37mMMMMMMMWWN\u{1b}[34mOdolco\nxx\u{1b}[35mdx\u{1b}[34mkxxOKN\u{1b}[37mWMMWN\u{1b}[34m0xdoxo::c\n\u{1b}[35mxOkkO\u{1b}[34m0oo\u{1b}[37modOW\u{1b}[35mWW\u{1b}[34mXkdodOxc:l\n\u{1b}[35mdkkkxkkk\u{1b}[37mOKX\u{1b}[35mNNNX0Oxx\u{1b}[34mxc:cd\n\u{1b}[35m odxxdx\u{1b}[37mxllod\u{1b}[35mddooxx\u{1b}[34mdc:ldo\n\u{1b}[35m   lodd\u{1b}[34mdolccc\u{1b}[35mccox\u{1b}[34mxoloo")
}

pub fn crystal_linux() -> (r: String)
    ensures
        r@ == icon_seq(Distro::CrystalLinux),
{
    String::from_str("\u{1b}[95m                        mysssym\n\u{1b}[95m                      mysssym\n\u{1b}[95m                    mysssym\n\u{1b}[95m                  mysssym\n\u{1b}[95m                mysssyd\n\u{1b}[95m              mysssyd    N\n\u{1b}[95m            mysssyd    mysym\n\u{1b}[95m          mysssyd      dysssym\n\u{1b}[95m        mysssyd          dysssym\n\u{1b}[95m      mysssyd              dysssym\n\u{1b}[95m      mysssyd              dysssym\n\u{1b}[95m        mysssyd          dysssym\n\u{1b}[95m          mysssyd      dysssym\n\u{1b}[95m            mysym    dysssym\n\u{1b}[95m              N    dysssym\n\u{1b}[95m                 dysssym\n\u{1b}[95m               dysssym\n\u{1b}[95m             dysssym\n\u{1b}[95m           dysssym\n\u{1b}[95m         dysssym")
}

pub fn cucumber() -> (r: String)
    ensures
        r@ == icon_seq(Distro::Cucumber),
{
    String::from_str("\u{1b}[32m           `.-://++++++//:-.`\n        `:/+//\u{1b}[33m::--------\u{1b}[32m:://+/:`\n      -++/:\u{1b}[33m----..........----\u{1b}[32m:/++-\n    .++:\u{1b}[33m---...........-......---\u{1b}[32m:++.\n   /+:\u{1b}[33m---....-::/:/--//:::-....---\u{1b}[32m:+/\n `++:\u{1b}[33m--.....:---::/--/::---:.....--\u{1b}[32m:++`\n /+:\u{1b}[33m--.....--.--::::-/::--.--.....--\u{1b}[32m:+/\n-o:\u{1b}[33m--.......-:::://--/:::::-.......--\u{1b}[32m:o-\n/+:\u{1b}[33m--...-:-::---:::..:::---:--:-...--\u{1b}[32m:+/\no/:\u{1b}[33m-...-:.:.-/:::......::/:.--.:-...-\u{1b}[32m:/o\no/\u{1b}[33m--...::-:/::/:-......-::::::-/-...-\u{1b}[32m:/o\n/+:\u{1b}[33m--..-/:/:::--:::..:::--::////-..--\u{1b}[32m:+/\n-o:\u{1b}[33m--...----::/:::/--/:::::-----...--\u{1b}[32m:o-\n /+:\u{1b}[33m--....://:::.:/--/:.::://:....--\u{1b}[32m:+/\n `++:\u{1b}[33m--...-:::.--.:..:.--.:/:-...--\u{1b}[32m:++`\n   /+:\u{1b}[33m---....----:-..-:----....---\u{1b}[32m:+/\n    .++:\u{1b}[33m---..................---\u{1b}[32m:++.\n      -/+/:\u{1b}[33m----..........----\u{1b}[32m:/+/-\n        `:/+//\u{1b}[33m::--------:::\u{1b}[32m/+/:`\n           `.-://++++++//:-.`")
}

pub fn dahlia() -> (r: String)
    ensures
        r@ == icon_seq(Distro::Dahlia),
{
    String::from_str("\u{1b}[31m\n                  .#.\n                *%@@@%*\n        .,,,,,(&@@@@@@@&/,,,,,.\n       ,#@@@@@@@@@@@@@@@@@@@@@#.\n       ,#@@@@@@@&#///#&@@@@@@@#.\n     ,/%&@@@@@%/,    .,(%@@@@@&#/.\n   *#&@@@@@@#,.         .*#@@@@@@&#,\n .&@@@@@@@@@(            .(@@@@@@@@@&&.\n#@@@@@@@@@@(               )@@@@@@@@@@@#\n °@@@@@@@@@@(            .(@@@@@@@@@@@°\n   *%@@@@@@@(.           ,#@@@@@@@%*\n     ,(&@@@@@@%*.     ./%@@@@@@%(,\n       ,#@@@@@@@&(***(&@@@@@@@#.\n       ,#@@@@@@@@@@@@@@@@@@@@@#.\n        ,*****#&@@@@@@@&(*****,\n               ,/%@@@%/.\n                  ,#,")
}

pub fn debian_small() -> (r: String)
    ensures
        r@ == icon_seq(Distro::DebianSmall),
{
    String::from_str("\u{1b}[31m  _____\n /  __ \\\\\n|  /    |\n|  \\\\___-\n-_\n  --_")
}

pub fn debian() -> (r: String)
    ensures
        r@ == icon_seq(Distro::Debian),
{
    String::from_str("\u{1b}[37m       _,met$$$$$gg.\n    ,g$$$$$$$$$$$$$$$P.\n  ,g$$P\"        \"\"\"Y$$.\".\n ,$$P'              `$$$.\n',$$P       ,ggs.     `$$b:\n`d$$'     ,$P\"'   \u{1b}[31m.\u{1b}[37m    $$$\n $$P      d$'     \u{1b}[31m,\u{1b}[37m    $$P\n $$:      $$.   \u{1b}[31m-\u{1b}[37m    ,d$$'\n $$;      Y$b._   _,d$P'\n Y$$.    \u{1b}[31m`.\u{1b}[37m`\"Y$$$$P\"'\n\u{1b}[37m `$$b      \u{1b}[31m\"-.__\n\u{1b}[37m  `Y$$\n   `Y$$.\n     `$$b.\n       `Y$$b.\n          `\"Y$b._\n              `\"\"\"")
}

pub fn deepin() -> (r: String)
    ensures
        r@ == icon_seq(Distro::Deepin),
{
    String::from_str("\u{1b}[32m             ............\n         .';;;;;.       .,;,.\n      .,;;;;;;;.       ';;;;;;;.\n    .;::::::::'     .,::;;,''''',.\n   ,'.::::::::    .;;'.          ';\n  ;'  'cccccc,   ,' :: '..        .:\n ,,    :ccccc.  ;: .c, '' :.       ,;\n.l.     cllll' ., .lc  :; .l'       l.\n.c       :lllc  ;cl:  .l' .ll.      :'\n.l        'looc. .   ,o:  'oo'      c,\n.o.         .:ool::coc'  .ooo'      o.\n ::            .....   .;dddo      ;c\n  l:...            .';lddddo.     ,o\n   lxxxxxdoolllodxxxxxxxxxc      :l\n    ,dxxxxxxxxxxxxxxxxxxl.     'o,\n      ,dkkkkkkkkkkkkko;.    .;o;\n        .;okkkkkdl;.    .,cl:.\n            .,:cccccccc:,.")
}

pub fn desa_os() -> (r: String)
    ensures
        r@ == icon_seq(Distro::DesaOs),
{
    String::from_str("\u{1b}[32m███████████████████████\n███████████████████████\n███████████████████████\n███████████████████████\n████████               ███████\n████████               ███████\n████████               ███████\n████████               ███████\n████████               ███████\n████████               ███████\n████████               ███████\n██████████████████████████████\n██████████████████████████████\n████████████████████████\n████████████████████████\n████████████████████████")
}

pub fn devuan() -> (r: String)
    ensures
        r@ == icon_seq(Distro::Devuan),
{
    String::from_str("\u{1b}[35m   ..,,;;;::;,..\n           `':ddd;:,.\n                 `'dPPd:,.\n                     `:b$$b`.\n                        'P$$$d`\n                         .$$$$$`\n                         ;$$$$$P\n                      .:P$$$$$$`\n                  .,:b$$$$$$$;'\n             .,:dP$$$$$$$$b:'\n      .,:;db$$$$$$$$$$Pd'`\n ,db$$$$$$$$$$$$$$b:'`\n:$$$$$$$$$$$$b:'`\n `$$$$$bd:''`\n   `'''`")
}

pub fn drac_os() -> (r: String)
    ensures
        r@ == icon_seq(Distro::DracOs),
{
    String::from_str("\u{1b}[31m       `-:/-\n          -os:\n            -os/`\n              :sy+-`\n               `/yyyy+.\n                 `+yyyyo-\n                   `/yyyys:\n`:osssoooo++-        +yyyyyy/`\n   ./yyyyyyo         yo`:syyyy+.\n      -oyyy+         +-   :yyyyyo-\n        `:sy:        `.    `/yyyyys:\n           ./o/.`           .oyyso+oo:`\n              :+oo+//::::///:-.`     `.`")
}

pub fn itc() -> (r: String)
    ensures
        r@ == icon_seq(Distro::Itc),
{
    String::from_str("\u{1b}[31m....................-==============+...\n\u{1b}[31m....................-==============:...\n\u{1b}[31m...:===========-....-==============:...\n\u{1b}[31m...-===========:....-==============-...\n\u{1b}[31m....*==========+........-::********-...\n\u{1b}[31m....*===========+.:*====**==*+-.-......\n\u{1b}[31m....:============*+-..--:+**====*---...\n\u{1b}[31m......::--........................::...\n\u{1b}[31m..+-:+-.+::*:+::+:-++::++-.:-.*.:++:++.\n\u{1b}[31m..:-:-++++:-::--:+::-::.:++-++:++--:-:.    ⠀⠀⠀⠀⠀\n⠀⠀⠀⠀⠀⠀⠀⠀⠀⠀")
}

pub fn dragonfly_old() -> (r: String)
    ensures
        r@ == icon_seq(Distro::DragonflyOld),
{
    String::from_str("\u{1b}[31m                   .-.\n                 \u{1b}[33m ()\u{1b}[31mI\u{1b}[33m()\n            \u{1b}[31m \"==.__:-:__.==\"\n            \"==.__/~|~\\__.==\"\n            \"==._(  Y  )_.==\"\n \u{1b}[37m.-'~~\"\"~=--...,__\u{1b}[31m\\/|\\/\u{1b}[37m__,...--=~\"\"~~'-.\n(               ..=\u{1b}[31m\\\\=\u{1b}[31m/\u{1b}[37m=..               )\n `'-.        ,.-\"`;\u{1b}[31m/=\\\\\u{1b}[37m;\"-.,_        .-'`\n     `~\"-=-~` .-~` \u{1b}[31m|=|\u{1b}[37m `~-. `~-=-\"~`\n          .-~`    /\u{1b}[31m|=|\u{1b}[37m\\    `~-.\n       .~`       / \u{1b}[31m|=|\u{1b}[37m \\       `~.\n   .-~`        .'  \u{1b}[31m|=|\u{1b}[37m  `.        `~-.\n (`     _,.-=\"`  \u{1b}[31m  |=|\u{1b}[37m    `\"=-.,_     `)\n  `~\"~\"`        \u{1b}[31m   |=|\u{1b}[37m           `\"~\"~`\n                 \u{1b}[31m  /=\\\\\n                   \\\\=/\n                    ^")
}

pub fn dragonfly_small() -> (r: String)
    ensures
        r@ == icon_seq(Distro::DragonflySmall),
{
    String::from_str("\u{1b}[37m   ,\u{1b}[31m_\u{1b}[37m,\n('-_\u{1b}[31m|\u{1b}[37m_-')\n >--\u{1b}[31m|\u{1b}[37m--<\n(_-'\u{1b}[31m|\u{1b}[37m'-_)\n    \u{1b}[31m|\n    |\n    |")
}

pub fn dragon_fly() -> (r: String)
    ensures
        r@ == icon_seq(Distro::DragonFly),
{
    String::from_str("\u{1b}[37m,--,           \u{1b}[31m|           \u{1b}[37m,--,\n\u{1b}[37m|   `-,       \u{1b}[31m,^,       \u{1b}[37m,-'   |\n\u{1b}[37m `,    `-,   \u{1b}[33m(/ \\)   \u{1b}[37m,-'    ,'\n\u{1b}[37m   `-,    `-,\u{1b}[31m/   \\\u{1b}[37m,-'    ,-'\n\u{1b}[37m      `------\u{1b}[31m(   )\u{1b}[37m------'\n\u{1b}[37m  ,----------\u{1b}[31m(   )\u{1b}[37m----------,\n\u{1b}[37m |        _,-\u{1b}[31m(   )\u{1b}[37m-,_        |\n\u{1b}[37m  `-,__,-'   \u{1b}[31m\\   /\u{1b}[37m   `-,__,-'\n\u{1b}[31m              | |\n              | |\n              | |\n              | |\n              | |\n              | |\n              `|'")
}

pub fn drauger() -> (r: String)
    ensures
        r@ == icon_seq(Distro::Drauger),
{
    String::from_str("\u{1b}[31m                  -``-\n                `:+``+:`\n               `/++``++/.\n              .++/.  ./++.\n             :++/`    `/++:\n           `/++:        :++/`\n          ./+/-          -/+/.\n         -++/.            ./++-\n        :++:`              `:++:\n      `/++-                  -++/`\n     ./++.                    ./+/.\n    -++/`                      `/++-\n   :++:`                        `:++:\n `/++-                            -++/`\n.:-.`..............................`.-:.\n`.-/++++++++++++++++++++++++++++++++/-.`")
}

pub fn elementary_small() -> (r: String)
    ensures
        r@ == icon_seq(Distro::ElementarySmall),
{
    String::from_str("\u{1b}[37m  _______\n / ____  \\\\\n/  |  /  /\\\\\n|__\\\\ /  / |\n\\\\   /__/  /\n \\\\_______/")
}

pub fn elementary() -> (r: String)
    ensures
        r@ == icon_seq(Distro::Elementary),
{
    String::from_str("\u{1b}[37m         eeeeeeeeeeeeeeeee\n      eeeeeeeeeeeeeeeeeeeeeee\n    eeeee  eeeeeeeeeeee   eeeee\n  eeee   eeeee       eee     eeee\n eeee   eeee          eee     eeee\neee    eee            eee       eee\neee   eee            eee        eee\nee    eee           eeee       eeee\nee    eee         eeeee      eeeeee\nee    eee       eeeee      eeeee ee\neee   eeee   eeeeee      eeeee  eee\neee    eeeeeeeeee     eeeeee    eee\n eeeeeeeeeeeeeeeeeeeeeeee    eeeee\n  eeeeeeee eeeeeeeeeeee      eeee\n    eeeee                 eeeee\n      eeeeeee         eeeeeee\n         eeeeeeeeeeeeeeeee")
}

pub fn endeavour_os() -> (r: String)
    ensures
        r@ == icon_seq(Distro::EndeavourOs),
{
    String::from_str("\u{1b}[31m                     ./\u{1b}[35mo\u{1b}[34m.\n\u{1b}[31m                   ./\u{1b}[35msssso\u{1b}[34m-\n\u{1b}[31m                 `:\u{1b}[35mosssssss+\u{1b}[34m-\n\u{1b}[31m               `:+\u{1b}[35msssssssssso\u{1b}[34m/.\n\u{1b}[31m             `-/o\u{1b}[35mssssssssssssso\u{1b}[34m/.\n\u{1b}[31m           `-/+\u{1b}[35msssssssssssssssso\u{1b}[34m+:`\n\u{1b}[31m         `-:/+\u{1b}[35msssssssssssssssssso\u{1b}[34m+/.\n\u{1b}[31m       `.://o\u{1b}[35msssssssssssssssssssso\u{1b}[34m++-\n\u{1b}[31m      .://+\u{1b}[35mssssssssssssssssssssssso\u{1b}[34m++:\n\u{1b}[31m    .:///o\u{1b}[35mssssssssssssssssssssssssso\u{1b}[34m++:\n\u{1b}[31m  `:////\u{1b}[35mssssssssssssssssssssssssssso\u{1b}[34m+++.\n\u{1b}[31m`-////+\u{1b}[35mssssssssssssssssssssssssssso\u{1b}[34m++++-\n\u{1b}[31m `..-+\u{1b}[35moosssssssssssssssssssssssso\u{1b}[34m+++++/`\n   ./++++++++++++++++++++++++++++++/:.\n  `:::::::::::::::::::::::::------``")
}

pub fn endless() -> (r: String)
    ensures
        r@ == icon_seq(Distro::Endless),
{
    String::from_str("\u{1b}[31m           `:+yhmNMMMMNmhy+:`\n        -odMMNhso//////oshNMMdo-\n      /dMMh+.              .+hMMd/\n    /mMNo`                    `oNMm:\n  `yMMo`                        `oMMy`\n `dMN-                            -NMd`\n hMN.                              .NMh\n/MM/                  -os`          /MM/\ndMm    `smNmmhs/- `:sNMd+   ``       mMd\nMMy    oMd--:+yMMMMMNo.:ohmMMMNy`    yMM\nMMy    -NNyyhmMNh+oNMMMMMy:.  dMo    yMM\ndMm     `/++/-``/yNNh+/sdNMNddMm-    mMd\n/MM/          `dNy:       `-::-     /MM/\n hMN.                              .NMh\n `dMN-                            -NMd`\n  `yMMo`                        `oMMy`\n    /mMNo`                    `oNMm/\n      /dMMh+.              .+hMMd/\n        -odMMNhso//////oshNMMdo-\n           `:+yhmNMMMMNmhy+:`")
}

pub fn euro_linux() -> (r: String)
    ensures
        r@ == icon_seq(Distro::EuroLinux),
{
    String::from_str("\u{1b}[34m                __\n         -wwwWWWWWWWWWwww-\n        -WWWWWWWWWWWWWWWWWWw-\n          \\WWWWWWWWWWWWWWWWWWW-\n  _Ww      `WWWWWWWWWWWWWWWWWWWw\n -W\u{1b}[37mE\u{1b}[34mWww                -WWWWWWWWW-\n_WW\u{1b}[37mU\u{1b}[34mWWWW-                _WWWWWWWW\n_WW\u{1b}[37mR\u{1b}[34mWWWWWWWWWWWWWWWWWWWWWWWWWWWWWW-\nwWW\u{1b}[37mO\u{1b}[34mWWWWWWWWWWWWWWWWWWWWWWWWWWWWWWW\nWWW\u{1b}[37mL\u{1b}[34mWWWWWWWWWWWWWWWWWWWWWWWWWWWWWWw\nWWW\u{1b}[37mI\u{1b}[34mWWWWWWWWWWWWWWWWWWWWWWWWWWWWww-\nwWW\u{1b}[37mN\u{1b}[34mWWWWw\n WW\u{1b}[37mU\u{1b}[34mWWWWWWw\n wW\u{1b}[37mX\u{1b}[34mWWWWWWWWww\n   wWWWWWWWWWWWWWWWw\n    wWWWWWWWWWWWWWWWw\n       WWWWWWWWWWWWWw\n           wWWWWWWWw")
}

pub fn exherbo() -> (r: String)
    ensures
        r@ == icon_seq(Distro::Exherbo),
{
    String::from_str("\u{1b}[37m ,\nOXo.\nNXdX0:    .cok0KXNNXXK0ko:.\nKX  '0XdKMMK;.xMMMk, .0MMMMMXx;  ...\n'NO..xWkMMx   kMMM    cMMMMMX,NMWOxOXd.\n  cNMk  NK    .oXM.   OMMMMO. 0MMNo  kW.\n  lMc   o:       .,   .oKNk;   ;NMMWlxW'\n ;Mc    ..   .,,'    .0M\u{1b}[34mg;\u{1b}[37mWMN'dWMMMMMMO\n XX        ,WMMMMW.  cM\u{1b}[34mcfli\u{1b}[37mWMKlo.   .kMk\n.Mo        .WM\u{1b}[34mGD\u{1b}[37mMW.   XM\u{1b}[34mWO0\u{1b}[37mMMk        oMl\n,M:         ,XMMWx::,''oOK0x;          NM.\n'Ml      ,kNKOxxxxxkkO0XXKOd:.         oMk\n NK    .0Nxc\u{1b}[31m:::::::::::::::\u{1b}[37mfkKNk,      .MW\n ,Mo  .NXc\u{1b}[31m::\u{1b}[37mqXWXb\u{1b}[31m::::::::::\u{1b}[37moo\u{1b}[31m::\u{1b}[37mlNK.    .MW\n  ;Wo oMd\u{1b}[31m:::\u{1b}[37moNMNP\u{1b}[31m::::::::\u{1b}[37moWMMMx\u{1b}[31m:\u{1b}[37mc0M;   lMO\n   'NO;W0c\u{1b}[31m:::::::::::::::\u{1b}[37mdMMMMO\u{1b}[31m::\u{1b}[37mlMk  .WM'\n     xWONXdc\u{1b}[31m::::::::::::::\u{1b}[37moOOo\u{1b}[31m::\u{1b}[37mlXN. ,WMd\n      'KWWNXXK0Okxxo,\u{1b}[31m:::::::\u{1b}[37m,lkKNo  xMMO\n        :XMNxl,';:lodxkOO000Oxc. .oWMMo\n          'dXMMXkl;,.        .,o0MMNo'\n             ':d0XWMMMMWNNNNMMMNOl'\n                   ':okKXWNKkl'")
}

pub fn fedora_small() -> (r: String)
    ensures
        r@ == icon_seq(Distro::FedoraSmall),
{
    String::from_str("\u{1b}[94m        ,'''''.\n       |   ,.  |\n       |  |  '_'\n  ,....|  |..\n.'  ,_;|   ..'\n|  |   |  |\n|  ',_,'  |\n '.     ,'\n   '''''")
}

pub fn fedora_old() -> (r: String)
    ensures
        r@ == icon_seq(Distro::FedoraOld),
{
    String::from_str("\u{1b}[34m          /:-------------:\\\\\n       :-------------------::\n     :-----------\u{1b}[37m/shhOHbmp\u{1b}[34m---:\\\\\n   /-----------\u{1b}[37momMMMNNNMMD  \u{1b}[34m---:\n  :-----------\u{1b}[37msMMMMNMNMP\u{1b}[34m.    ---:\n :-----------\u{1b}[37m:MMMdP\u{1b}[34m-------    ---\\\\\n,------------\u{1b}[37m:MMMd\u{1b}[34m--------    ---:\n:------------\u{1b}[37m:MMMd\u{1b}[34m-------    .---:\n:----    \u{1b}[37moNMMMMMMMMMNho\u{1b}[34m     .----:\n:--     .\u{1b}[37m+shhhMMMmhhy++\u{1b}[34m   .------/\n:-    -------\u{1b}[37m:MMMd\u{1b}[34m--------------:\n:-   --------\u{1b}[37m/MMMd\u{1b}[34m-------------;\n:-    ------\u{1b}[37m/hMMMy\u{1b}[34m------------:\n:--\u{1b}[37m :dMNdhhdNMMNo\u{1b}[34m------------;\n:---\u{1b}[37m:sdNMMMMNds:\u{1b}[34m------------:\n:------\u{1b}[37m:://:\u{1b}[34m-------------::\n:---------------------://")
}

pub fn fedora() -> (r: String)
    ensures
        r@ == icon_seq(Distro::Fedora),
{
    String::from_str("\u{1b}[94m             .',;::::;,'.\n         .';:cccccccccccc:;,.\n      .;cccccccccccccccccccccc;.\n    .:cccccccccccccccccccccccccc:.\n  .;ccccccccccccc;\u{1b}[37m.:dddl:.\u{1b}[94m;ccccccc;.\n .:ccccccccccccc;\u{1b}[37mOWMKOOXMWd\u{1b}[94m;ccccccc:.\n.:ccccccccccccc;\u{1b}[37mKMMc\u{1b}[94m;cc;\u{1b}[37mxMMc\u{1b}[94m;ccccccc:.\n,cccccccccccccc;\u{1b}[37mMMM.\u{1b}[94m;cc;\u{1b}[37m;WW:\u{1b}[94m;cccccccc,\n:cccccccccccccc;\u{1b}[37mMMM.\u{1b}[94m;cccccccccccccccc:\n:ccccccc;\u{1b}[37moxOOOo\u{1b}[94m;\u{1b}[37mMMM0OOk.\u{1b}[94m;cccccccccccc:\ncccccc;\u{1b}[37m0MMKxdd:\u{1b}[94m;\u{1b}[37mMMMkddc.\u{1b}[94m;cccccccccccc;\nccccc;\u{1b}[37mXM0'\u{1b}[94m;cccc;\u{1b}[37mMMM.\u{1b}[94m;cccccccccccccccc'\nccccc;\u{1b}[37mMMo\u{1b}[94m;ccccc;\u{1b}[37mMMW.\u{1b}[94m;ccccccccccccccc;\nccccc;\u{1b}[37m0MNc.\u{1b}[94mccc\u{1b}[37m.xMMd\u{1b}[94m;ccccccccccccccc;\ncccccc;\u{1b}[37mdNMWXXXWM0:\u{1b}[94m;cccccccccccccc:,\ncccccccc;\u{1b}[37m.:odl:.\u{1b}[94m;cccccccccccccc:,.\n:cccccccccccccccccccccccccccc:'.\n.:cccccccccccccccccccccc:;,..\n  '::cccccccccccccc::;,.")
}

pub fn feren() -> (r: String)
    ensures
        r@ == icon_seq(Distro::Feren),
{
    String::from_str("\u{1b}[34m `----------`\n :+ooooooooo+.\n-o+oooooooooo+-\n..`/+++++++++++/...`````````````````\n   .++++++++++++++++++++++++++/////-\n    ++++++++++++++++++++++++++++++++//:`\n    -++++++++++++++++++++++++++++++/-`\n     ++++++++++++++++++++++++++++:.\n     -++++++++++++++++++++++++/.\n      +++++++++++++++++++++/-`\n      -++++++++++++++++++//-`\n        .:+++++++++++++//////-\n           .:++++++++//////////-\n             `-++++++---:::://///.\n           `.:///+++.             `\n          `.........")
}

pub fn freebsd_small() -> (r: String)
    ensures
        r@ == icon_seq(Distro::FreebsdSmall),
{
    String::from_str("\u{1b}[31m/\\\\,-'''''-,/\\\\\n\\\\_)       (_/\n|           |\n|           |\n ;         ;\n  '-_____-'")
}

pub fn free_mi_nt() -> (r: String)
    ensures
        r@ == icon_seq(Distro::FreeMiNt),
{
    String::from_str("\u{1b}[37m          ##\n          ##         #########\n                    ####      ##\n            ####  ####        ##\n####        ####  ##        ##\n        ####    ####      ##  ##\n        ####  ####  ##  ##  ##\n            ####  ######\n        ######  ##  ##  ####\n      ####    ################\n    ####        ##  ####\n    ##            ####  ######\n    ##      ##    ####  ####\n    ##    ##  ##    ##  ##  ####\n      ####  ##          ##  ##")
}

pub fn frugalware() -> (r: String)
    ensures
        r@ == icon_seq(Distro::Frugalware),
{
    String::from_str("\u{1b}[34m          `++/::-.`\n         /o+++++++++/::-.`\n        `o+++++++++++++++o++/::-.`\n        /+++++++++++++++++++++++oo++/:-.``\n       .o+ooooooooooooooooooosssssssso++oo++/:-`\n       ++osoooooooooooosssssssssssssyyo+++++++o:\n      -o+ssoooooooooooosssssssssssssyyo+++++++s`\n      o++ssoooooo++++++++++++++sssyyyyo++++++o:\n     :o++ssoooooo\u{1b}[37m/-------------\u{1b}[34m+syyyyyo+++++oo\n    `o+++ssoooooo\u{1b}[37m/-----\u{1b}[34m+++++ooosyyyyyyo++++os:\n    /o+++ssoooooo\u{1b}[37m/-----\u{1b}[34mooooooosyyyyyyyo+oooss\n   .o++++ssooooos\u{1b}[37m/------------\u{1b}[34msyyyyyyhsosssy-\n   ++++++ssooooss\u{1b}[37m/-----\u{1b}[34m+++++ooyyhhhhhdssssso\n  -s+++++syssssss\u{1b}[37m/-----\u{1b}[34myyhhhhhhhhhhhddssssy.\n  sooooooyhyyyyyh\u{1b}[37m/-----\u{1b}[34mhhhhhhhhhhhddddyssy+\n :yooooooyhyyyhhhyyyyyyhhhhhhhhhhdddddyssy`\n yoooooooyhyyhhhhhhhhhhhhhhhhhhhddddddysy/\n-ysooooooydhhhhhhhhhhhddddddddddddddddssy\n .-:/+osssyyyysyyyyyyyyyyyyyyyyyyyyyyssy:\n       ``.-/+oosysssssssssssssssssssssss\n               ``.:/+osyysssssssssssssh.\n                        `-:/+osyyssssyo\n                                .-:+++`")
}

pub fn funtoo() -> (r: String)
    ensures
        r@ == icon_seq(Distro::Funtoo),
{
    String::from_str("\u{1b}[35m   .dKXXd                         .\n  :XXl;:.                      .OXo\n.'OXO''  .''''''''''''''''''''':XNd..'oco.lco,\nxXXXXXX, cXXXNNNXXXXNNXXXXXXXXNNNNKOOK; d0O .k\n  kXX  xXo  KNNN0  KNN.       'xXNo   :c; 'cc.\n  kXX  xNo  KNNN0  KNN. :xxxx. 'NNo\n  kXX  xNo  loooc  KNN. oNNNN. 'NNo\n  kXX  xN0:.       KNN' oNNNX' ,XNk\n  kXX  xNNXNNNNNNNNXNNNNNNNNXNNOxXNX0Xl\n  ...  ......................... .;cc;.")
}

pub fn gallium_os() -> (r: String)
    ensures
        r@ == icon_seq(Distro::GalliumOs),
{
    String::from_str("\u{1b}[34msooooooooooooooooooooooooooooooooooooo+:\nyyooooooooooooooooooooooooooooooooo+/:::\nyyysoooooooooooooooooooooooooooo+/::::::\nyyyyyoooooooooooooooooooooooo+/:::::::::\nyyyyyysoooooooooooooooooo++/::::::::::::\nyyyyyyysoooooooooooooo++/:::::::::::::::\nyyyyyyyyysoooooo\u{1b}[37msydddys\u{1b}[34m+/:::::::::::::::\nyyyyyyyyyysooo\u{1b}[37msmMMMMMMMNd\u{1b}[34m+::::::::::::::\nyyyyyyyyyyyyo\u{1b}[37msMMMMMMMMMMMN\u{1b}[34m/:::::::::::::\nyyyyyyyyyyyyy\u{1b}[37mdMMMMMMMMMMMM\u{1b}[34mo//:::::::::::\nyyyyyyyyyyyyy\u{1b}[37mhMMMMMMMMMMMm\u{1b}[34m--//::::::::::\nyyyyyyyyyyyyyy\u{1b}[37mhmMMMMMMMNy\u{1b}[34m:..-://::::::::\nyyyyyyyyyyyyyyy\u{1b}[37myyhhyys+:\u{1b}[34m......://:::::::\nyyyyyyyyyyyyyyys+:--...........-///:::::\nyyyyyyyyyyyys+:--................://::::\nyyyyyyyyyo+:-.....................-//:::\nyyyyyyo+:-..........................://:\nyyyo+:-..............................-//\no/:-...................................:")
}

pub fn garuda() -> (r: String)
    ensures
        r@ == icon_seq(Distro::Garuda),
{
    String::from_str("\u{1b}[33m\n                     .%;888:8898898:\n                   x;XxXB%89b8:b8%b88:\n                .8Xxd                8X:.\n              .8Xx;                    8x:.\n            .tt8x          \u{1b}[34m.d\u{1b}[33m            x88;\n         .@8x8;          \u{1b}[34m.db:\u{1b}[33m              xx@;\n       \u{1b}[37m,tSXX°          .bbbbbbbbbbbbbbbbbbbB8x@;\n     .SXxx            bBBBBBBBBBBBBBBBBBBBbSBX8;\n   ,888S                                     pd!\n  8X88/                                       q\n  GBB.\n   \u{1b}[32mx%88        d888@8@X@X@X88X@@XX@@X@8@X.\n     dxXd    dB8b8b8B8B08bB88b998888b88x.\n      dxx8o                      .@@;.\n        dx88                   .t@x.\n          d:SS@8ba89aa67a853Sxxad.\n            .d988999889889899dd.")
}

pub fn gentoo_small() -> (r: String)
    ensures
        r@ == icon_seq(Distro::GentooSmall),
{
    String::from_str("\u{1b}[35m _-----_\n(       \\\\\n\\    0   \\\\\n\u{1b}[37m \\        )\n /      _/\n(     _-\n\\____-")
}

pub fn gentoo() -> (r: String)
    ensures
        r@ == icon_seq(Distro::Gentoo),
{
    String::from_str("\u{1b}[35m         -/oyddmdhs+:.\n     -o\u{1b}[37mdNMMMMMMMMNNmhy+\u{1b}[35m-`\n   -y\u{1b}[37mNMMMMMMMMMMMNNNmmdhy\u{1b}[35m+-\n `o\u{1b}[37mmMMMMMMMMMMMMNmdmmmmddhhy\u{1b}[35m/`\n om\u{1b}[37mMMMMMMMMMMMN\u{1b}[35mhhyyyo\u{1b}[37mhmdddhhhd\u{1b}[35mo`\n.y\u{1b}[37mdMMMMMMMMMMd\u{1b}[35mhs++so/s\u{1b}[37mmdddhhhhdm\u{1b}[35m+`\n oy\u{1b}[37mhdmNMMMMMMMN\u{1b}[35mdyooy\u{1b}[37mdmddddhhhhyhN\u{1b}[35md.\n  :o\u{1b}[37myhhdNNMMMMMMMNNNmmdddhhhhhyym\u{1b}[35mMh\n    .:\u{1b}[37m+sydNMMMMMNNNmmmdddhhhhhhmM\u{1b}[35mmy\n       /m\u{1b}[37mMMMMMMNNNmmmdddhhhhhmMNh\u{1b}[35ms:\n    `o\u{1b}[37mNMMMMMMMNNNmmmddddhhdmMNhs\u{1b}[35m+`\n  `s\u{1b}[37mNMMMMMMMMNNNmmmdddddmNMmhs\u{1b}[35m/.\n /N\u{1b}[37mMMMMMMMMNNNNmmmdddmNMNdso\u{1b}[35m:`\n+M\u{1b}[37mMMMMMMNNNNNmmmmdmNMNdso\u{1b}[35m/-\nyM\u{1b}[37mMNNNNNNNmmmmmNNMmhs+/\u{1b}[35m-`\n/h\u{1b}[37mMMNNNNNNNNMNdhs++/\u{1b}[35m-`\n`/\u{1b}[37mohdmmddhys+++/:\u{1b}[35m.`\n  `-//////:--.")
}

pub fn pentoo() -> (r: String)
    ensures
        r@ == icon_seq(Distro::Pentoo),
{
    String::from_str("\u{1b}[37m           `:oydNNMMMMNNdyo:`\n        :yNMMMMMMMMMMMMMMMMNy:\n      :dMMMMMMMMMMMMMMMMMMMMMMd:\n     oMMMMMMMho/-....-/ohMMMMMMMo\n    oMMMMMMy.            .yMMMMMMo\n   .MMMMMMo                oMMMMMM.\n   +MMMMMm                  mMMMMM+\n   oMMMMMh                  hMMMMMo\n //hMMMMMm//\u{1b}[35m`\u{1b}[37m          \u{1b}[35m`\u{1b}[37m////mMMMMMh//\nMMMMMMMMMMM\u{1b}[35m/\u{1b}[37m      \u{1b}[35m/o/`\u{1b}[37m  \u{1b}[35m.\u{1b}[37msmMMMMMMMMMMM\nMMMMMMMMMMm      \u{1b}[35m`NMN:\u{1b}[37m    \u{1b}[35m.\u{1b}[37myMMMMMMMMMM\nMMMMMMMMMMMh\u{1b}[35m:.\u{1b}[37m              dMMMMMMMMM\nMMMMMMMMMMMMMy\u{1b}[35m.\u{1b}[37m            \u{1b}[35m-\u{1b}[37mNMMMMMMMMM\nMMMMMMMMMMMd:\u{1b}[35m`\u{1b}[37m           \u{1b}[35m-\u{1b}[37myNMMMMMMMMMM\nMMMMMMMMMMh\u{1b}[35m`\u{1b}[37m          \u{1b}[35m./\u{1b}[37mhNMMMMMMMMMMMM\nMMMMMMMMMM\u{1b}[35ms\u{1b}[37m        \u{1b}[35m.:\u{1b}[37mymMMMMMMMMMMMMMMM\nMMMMMMMMMMN\u{1b}[35ms:..-/\u{1b}[37mohNMMMMMMMMMMMMMMMMMM\nMMMMMMMMMMMMMMMMMMMMMMMMMMMMMMMMMMMMMM\nMMMMMMMMMMMMMMMMMMMMMMMMMMMMMMMMMMMMMM\n MMMMMMMMMMMMMMMMMMMMMMMMMMMMMMMMMMMM")
}

pub fn glaucus() -> (r: String)
    ensures
        r@ == icon_seq(Distro::Glaucus),
{
    String::from_str("\u{1b}[35m             ,,        ,d88P\n           ,d8P    ,ad8888*\n         ,888P    d88888*     ,,ad8888P*\n    d   d888P   a88888P*  ,ad8888888*\n  .d8  d8888:  d888888* ,d888888P*\n .888; 88888b d8888888b8888888P\n d8888J888888a88888888888888P*    ,d\n 88888888888888888888888888P   ,,d8*\n 888888888888888888888888888888888*\n *8888888888888888888888888888888*\n  Y888888888P* `*``*888888888888*\n   *^888^*            *Y888P**")
}

pub fn g_new_sense() -> (r: String)
    ensures
        r@ == icon_seq(Distro::GNewSense),
{
    String::from_str("\u{1b}[34m                     ..,,,,..\n               .oocchhhhhhhhhhccoo.\n        .ochhlllllllc hhhhhh ollllllhhco.\n    ochlllllllllll hhhllllllhhh lllllllllllhco\n .cllllllllllllll hlllllo  +hllh llllllllllllllc.\nollllllllllhco''  hlllllo  +hllh  ``ochllllllllllo\nhllllllllc'       hllllllllllllh       `cllllllllh\nollllllh          +llllllllllll+          hllllllo\n `cllllh.           ohllllllho           .hllllc'\n    ochllc.            ++++            .cllhco\n       `+occooo+.                .+ooocco+'\n              `+oo++++      ++++oo+'")
}

pub fn gnome() -> (r: String)
    ensures
        r@ == icon_seq(Distro::Gnome),
{
    String::from_str("\u{1b}[34m                               ,@@@@@@@@,\n                 @@@@@@      @@@@@@@@@@@@\n        ,@@.    @@@@@@@    *@@@@@@@@@@@@\n       @@@@@%   @@@@@@(    @@@@@@@@@@@&\n       @@@@@@    @@@@*     @@@@@@@@@#\n@@@@*   @@@@,              *@@@@@%\n@@@@@.\n @@@@#         @@@@@@@@@@@@@@@@\n         ,@@@@@@@@@@@@@@@@@@@@@@@,\n      ,@@@@@@@@@@@@@@@@@@@@@@@@@@&\n    .@@@@@@@@@@@@@@@@@@@@@@@@@@@@\n    @@@@@@@@@@@@@@@@@@@@@@@@@@@\n   @@@@@@@@@@@@@@@@@@@@@@@@(\n   @@@@@@@@@@@@@@@@@@@@%\n    @@@@@@@@@@@@@@@@\n     @@@@@@@@@@@@*        @@@@@@@@/\n      &@@@@@@@@@@        @@@@@@@@@*\n        @@@@@@@@@@@,    @@@@@@@@@*\n          ,@@@@@@@@@@@@@@@@@@@@&\n              &@@@@@@@@@@@@@@\n                     ...")
}

pub fn gnu() -> (r: String)
    ensures
        r@ == icon_seq(Distro::Gnu),
{
    String::from_str("\u{1b}[37m    _-`````-,           ,- '- .\n  .'   .- - |          | - -.  `.\n /.'  /                     `.   \\\n:/   :      _...   ..._      ``   :\n::   :     /._ .`:'_.._\\.    ||   :\n::    `._ ./  ,`  :    \\ . _.''   .\n`:.      /   |  -.  \\-. \\\\_      /\n  \\:._ _/  .'   .@)  \\@) ` `\\ ,.'\n     _/,--'       .- .\\,-.`--`.\n       ,'/''     (( \\ `  )\n        /'/'  \\    `-'  (\n         '/''  `._,-----'\n          ''/'    .,---'\n           ''/'      ;:\n             ''/''  ''/\n               ''/''/''\n                 '/'/'\n                  `;")
}

pub fn gobo_linux() -> (r: String)
    ensures
        r@ == icon_seq(Distro::GoboLinux),
{
    String::from_str("\u{1b}[35m  _____       _\n / ____|     | |\n| |  __  ___ | |__   ___\n| | |_ |/ _ \\| '_ \\ / _ \\\n| |__| | (_) | |_) | (_) |\n \\_____|\\___/|_.__/ \\___/")
}

pub fn grombyang() -> (r: String)
    ensures
        r@ == icon_seq(Distro::Grombyang),
{
    String::from_str("\u{1b}[34m            eeeeeeeeeeee\n         eeeeeeeeeeeeeeeee\n      eeeeeeeeeeeeeeeeeeeeeee\n    eeeee       \u{1b}[32m.o+       \u{1b}[34meeee\n  eeee         \u{1b}[32m`ooo/         \u{1b}[34meeee\n eeee         \u{1b}[32m`+oooo:         \u{1b}[34meeee\neee          \u{1b}[32m`+oooooo:          \u{1b}[34meee\neee          \u{1b}[32m-+oooooo+:         \u{1b}[34meee\nee         \u{1b}[32m`/:oooooooo+:         \u{1b}[34mee\nee        \u{1b}[32m`/+   +++    +:        \u{1b}[34mee\nee              \u{1b}[32m+o+\\             \u{1b}[34mee\neee             \u{1b}[32m+o+\\            \u{1b}[34meee\neee        \u{1b}[32m//  \\\\ooo/  \\\\\\        \u{1b}[34meee\n eee      \u{1b}[32m//++++oooo++++\\\\\\     \u{1b}[34meee\n  eeee    \u{1b}[32m::::++oooo+:::::   \u{1b}[34meeee\n    eeeee   \u{1b}[31mGrombyang OS \u{1b}[34m  eeee\n      eeeeeeeeeeeeeeeeeeeeeee\n         eeeeeeeeeeeeeeeee")
}

pub fn guix_small() -> (r: String)
    ensures
        r@ == icon_seq(Distro::GuixSmall),
{
    String::from_str("\u{1b}[33m|.__          __.|\n|__ \\\\        / __|\n   \\\\ \\\\      / /\n    \\\\ \\\\    / /\n     \\\\ \\\\  / /\n      \\\\ \\\\/ /\n       \\\\__/")
}

pub fn guix() -> (r: String)
    ensures
        r@ == icon_seq(Distro::Guix),
{
    String::from_str("\u{1b}[33m ..                             `.\n `--..```..`           `..```..--`\n   .-:///-:::.       `-:::///:-.\n      ````.:::`     `:::.````\n           -//:`    -::-\n            ://:   -::-\n            `///- .:::`\n             -+++-:::.\n              :+/:::-\n              `-....`")
}

pub fn haiku_small() -> (r: String)
    ensures
        r@ == icon_seq(Distro::HaikuSmall),
{
    String::from_str("\u{1b}[32m       ,^,\n      /   \\\\\n*--_ ;     ; _--*\n\\\\   '\"     \"'   /\n '.           .'\n.-'\"         \"'-.\n '-.__.   .__.-'\n       |_|")
}

pub fn haiku() -> (r: String)
    ensures
        r@ == icon_seq(Distro::Haiku),
{
    String::from_str("\u{1b}[37m\n\n           MMMM              MMMM\n           MMMM              MMMM\n           MMMM              MMMM\n           MMMM              MMMM\n           MMMM\u{1b}[32m       .ciO| /YMMMMM*\"\n\u{1b}[37m           MMMM\u{1b}[32m   .cOMMMMM|/MMMMM/`\n ,         ,iMM|/MMMMMMMMMMMMMMM*\n  `*.__,-cMMMMMMMMMMMMMMMMM/`\u{1b}[37m.MMM\n           MM\u{1b}[32mMMMMMMM/`:MMM/  \u{1b}[37mMMMM\n           MMMM              MMMM\n           MMMM              MMMM\n           \"\"\"\"              \"\"\"\"")
}

pub fn huayra() -> (r: String)
    ensures
        r@ == icon_seq(Distro::Huayra),
{
    String::from_str("\u{1b}[37m                     `\n            .       .       `\n       ``    -      .      .\n        `.`   -` `. -  `` .`\n          ..`-`-` + -  / .`     ```\n          .--.+--`+:- :/.` .-``.`\n            -+/so::h:.d-`./:`.`\n              :hNhyMomy:os-...-.  ````\n               .dhsshNmNhoo+:-``.```\n                \u{1b}[34m`ohy:-\u{1b}[37mNMds+::-.``\n            ````\u{1b}[34m.hNN+`\u{1b}[37mmMNho/:-....````\n       `````     `../dmNhoo+/:..``\n    ````            .dh++o/:....`\n.+s/`                `/s-.-.:.`` ````\n::`                    `::`..`\n                          .` `..\n                                ``")
}

pub fn hydro_os() -> (r: String)
    ensures
        r@ == icon_seq(Distro::HydroOs),
{
    String::from_str("\u{1b}[31m\n  _    _           _            ____   _____\n | |  | |         | |          / __ \\ / ____|\n | |__| |_   _  __| |_ __ ___ | |  | | (___\n |  __  | | | |/ _` | '__/ _ \\| |  | |\\___ \\\n | |  | | |_| | (_| | | | (_) | |__| |____) |\n |_|  |_|\\__, |\\__,_|_|  \\___/ \\____/|_____/\n          __/ |\n         |___/")
}

pub fn hyperbola_small() -> (r: String)
    ensures
        r@ == icon_seq(Distro::HyperbolaSmall),
{
    String::from_str("\u{1b}[90m    |`__.`/\n    \\____/\n    .--.\n   /    \\\\\n  /  ___ \\\\\n / .`   `.\\\\\n/.`      `.\\\\")
}

pub fn hyperbola() -> (r: String)
    ensures
        r@ == icon_seq(Distro::Hyperbola),
{
    String::from_str("\u{1b}[90m                     WW\n                     KX              W\n                    WO0W          NX0O\n                    NOO0NW  WNXK0OOKW\n                    W0OOOOOOOOOOOOKN\n                     N0OOOOOOO0KXW\n                       WNXXXNW\n                 NXK00000KN\n             WNK0OOOOOOOOOO0W\n           NK0OOOOOOOOOOOOOO0W\n         X0OOOOOOO00KK00OOOOOK\n       X0OOOO0KNWW      WX0OO0W\n     X0OO0XNW              KOOW\n   N00KNW                   KOW\n NKXN                       W0W\nWW                           W")
}

pub fn iglunix() -> (r: String)
    ensures
        r@ == icon_seq(Distro::Iglunix),
{
    String::from_str("\u{1b}[90m     |\n     |        |\n              |\n|    ________\n|  /\\   |    \\\n  /  \\  |     \\  |\n /    \\        \\ |\n/      \\________\\\n\\      /        /\n \\    /        /\n  \\  /        /\n   \\/________/")
}

pub fn januslinux() -> (r: String)
    ensures
        r@ == icon_seq(Distro::Januslinux),
{
    String::from_str("\u{1b}[34m               'l:\n        loooooo\n          loooo coooool\n looooooooooooooooooool\n  looooooooooooooooo\n         lool   cooo\n        coooooooloooooooo\n     clooooo  ;lood  cloooo\n  :loooocooo cloo      loooo\n loooo  :ooooool       loooo\nlooo    cooooo        cooooo\nlooooooooooooo      ;loooooo \u{1b}[35mlooooooc\n\u{1b}[34mlooooooooo loo   cloooooool    \u{1b}[35mlooooc\n\u{1b}[34m cooo       cooooooooooo       \u{1b}[35mlooolooooool\n\u{1b}[34m            cooo:     \u{1b}[35mcoooooooooooooooooool\n                       loooooooooooolc:   loooc;\n                             cooo:    loooooooooooc\n                            ;oool         looooooo:\n                           coool          olc,\n                          looooc   ,,\n                        coooooc    loc\n                       :oooool,    coool:, looool:,\n                       looool:      ooooooooooooooo:\n                       cooolc        .ooooooooooool")
}

pub fn kaisen() -> (r: String)
    ensures
        r@ == icon_seq(Distro::Kaisen),
{
    String::from_str("\u{1b}[31m                          `\n                  `:+oyyho.\n             `+:`sdddddd/\n        `+` :ho oyo++ohds-`\n       .ho :dd.  .: `sddddddhhyso+/-\n       ody.ddd-:yd- +hysssyhddddddddho`\n       yddddddhddd` ` `--`   -+hddddddh.\n       hddy-+dddddy+ohh/..+sddddy/:::+ys\n      :ddd/sdddddddddd- oddddddd       `\n     `yddddddddddddddd/ /ddddddd/\n:.  :ydddddddddddddddddo..sddddddy/`\nodhdddddddo- `ddddh+-``....-+hdddddds.\n-ddddddhd:   /dddo  -ydddddddhdddddddd-\n /hdy:o - `:sddds   .`./hdddddddddddddo\n  `/-  `+hddyosy+       :dddddddy-.-od/\n      :sydds           -hddddddd`    /\n       .+shd-      `:ohddddddddd`\n                `:+ooooooooooooo:")
}

pub fn kali() -> (r: String)
    ensures
        r@ == icon_seq(Distro::Kali),
{
    String::from_str("\u{1b}[34m..............\n            ..,;:ccc,.\n          ......''';lxO.\n.....''''..........,:ld;\n           .';;;:::;,,.x,\n      ..'''.            0Xxoc:,.  ...\n  ....                ,ONkc;,;cokOdc',.\n .                   OMo           ':\u{1b}[90mdd\u{1b}[34mo.\n                    dMc               :OO;\n                    0M.                 .:o.\n                    ;Wd\n                     ;XO,\n                       ,d0Odlc;,..\n                           ..',;:cdOOd::,.\n                                    .:d;.':;.\n                                       'd,  .'\n                                         ;l   ..\n                                          .o\n                                            c\n                                            .'\n                                             .")
}

pub fn ka_os() -> (r: String)
    ensures
        r@ == icon_seq(Distro::KaOs),
{
    String::from_str("\u{1b}[34m                     ..\n  .....         ..OSSAAAAAAA..\n .KKKKSS.     .SSAAAAAAAAAAA.\n.KKKKKSO.    .SAAAAAAAAAA...\nKKKKKKS.   .OAAAAAAAA.\nKKKKKKS.  .OAAAAAA.\nKKKKKKS. .SSAA..\n.KKKKKS..OAAAAAAAAAAAA........\n DKKKKO.=AA=========A===AASSSO..\n  AKKKS.==========AASSSSAAAAAASS.\n  .=KKO..========ASS.....SSSSASSSS.\n    .KK.       .ASS..O.. =SSSSAOSS:\n     .OK.      .ASSSSSSSO...=A.SSA.\n       .K      ..SSSASSSS.. ..SSA.\n                 .SSS.AAKAKSSKA.\n                    .SSS....S..")
}

pub fn kde() -> (r: String)
    ensures
        r@ == icon_seq(Distro::Kde),
{
    String::from_str("\u{1b}[32m             `..---+/---..`\n         `---.``   ``   `.---.`\n      .--.`        ``        `-:-.\n    `:/:     `.----//----.`     :/-\n   .:.    `---`          `--.`    .:`\n  .:`   `--`                .:-    `:.\n `/    `:.      `.-::-.`      -:`   `/`\n /.    /.     `:++++++++:`     .:    .:\n`/    .:     `+++++++++++/      /`   `+`\n/+`   --     .++++++++++++`     :.   .+:\n`/    .:     `+++++++++++/      /`   `+`\n /`    /.     `:++++++++:`     .:    .:\n ./    `:.      `.:::-.`      -:`   `/`\n  .:`   `--`                .:-    `:.\n   .:.    `---`          `--.`    .:`\n    `:/:     `.----//----.`     :/-\n      .-:.`        ``        `-:-.\n         `---.``   ``   `.---.`\n             `..---+/---..`")
}

pub fn kibojoe() -> (r: String)
    ensures
        r@ == icon_seq(Distro::Kibojoe),
{
    String::from_str("\u{1b}[34m           ./+oooooo+/.\n           -/+ooooo+/:.`\n          \u{1b}[32m`\u{1b}[34myyyo\u{1b}[37m+++/++\u{1b}[34mosss\u{1b}[32m.\n         \u{1b}[32m+NMN\u{1b}[34myssssssssssss\u{1b}[32m.\n       \u{1b}[32m.dMMMMN\u{1b}[34msssssssssssy\u{1b}[32mNs`\n      +MMMMMMMm\u{1b}[34msssssssssssh\u{1b}[32mMNo`\n    `hMMMMMNNNMd\u{1b}[34msssssssssssd\u{1b}[32mMMN/\n   .\u{1b}[34msyyyssssssy\u{1b}[32mNNmmmmd\u{1b}[34msssss\u{1b}[32mhMMMMd:\n  -NMmh\u{1b}[34myssssssssyhhhhyssyh\u{1b}[32mmMMMMMMMy`\n -NMMMMMNN\u{1b}[34mmdhyyyyyyyhdm\u{1b}[32mNMMMMMMMMMMMN+\n`NMMMMMMMMMMMMMMMMMMMMMMMMMMMMMMMMMMMd.\nods+/:-----://+oyydmNMMMMMMMMMMMMMMMMMN-\n`                     .-:+osyhhdmmNNNmdo")
}

pub fn kogaion() -> (r: String)
    ensures
        r@ == icon_seq(Distro::Kogaion),
{
    String::from_str("\u{1b}[34m            ;;      ,;\n           ;;;     ,;;\n         ,;;;;     ;;;;\n      ,;;;;;;;;    ;;;;\n     ;;;;;;;;;;;   ;;;;;\n    ,;;;;;;;;;;;;  ';;;;;,\n    ;;;;;;;;;;;;;;, ';;;;;;;\n    ;;;;;;;;;;;;;;;;;, ';;;;;\n;    ';;;;;;;;;;;;;;;;;;, ;;;\n;;;,  ';;;;;;;;;;;;;;;;;;;,;;\n;;;;;,  ';;;;;;;;;;;;;;;;;;,\n;;;;;;;;,  ';;;;;;;;;;;;;;;;,\n;;;;;;;;;;;;, ';;;;;;;;;;;;;;\n';;;;;;;;;;;;; ';;;;;;;;;;;;;\n ';;;;;;;;;;;;;, ';;;;;;;;;;;\n  ';;;;;;;;;;;;;  ;;;;;;;;;;\n    ';;;;;;;;;;;; ;;;;;;;;\n        ';;;;;;;; ;;;;;;\n           ';;;;; ;;;;\n             ';;; ;;")
}

pub fn korora() -> (r: String)
    ensures
        r@ == icon_seq(Distro::Korora),
{
    String::from_str("\u{1b}[37m                ____________\n             _add55555555554\u{1b}[34m:\n           _w?'\u{1b}[34m``````````'\u{1b}[37m)k\u{1b}[34m:\n          _Z'\u{1b}[34m`\u{1b}[37m            ]k\u{1b}[34m:\n          m(\u{1b}[34m`\u{1b}[37m             )k\u{1b}[34m:\n     _.ss\u{1b}[34m`\u{1b}[37mm[\u{1b}[34m`\u{1b}[37m,            ]e\u{1b}[34m:\n   .uY\"^`\u{1b}[34m`\u{1b}[37mXc\u{1b}[34m`\u{1b}[37m?Ss.         d(\u{1b}[34m`\n  jF'\u{1b}[34m`\u{1b}[37m    `@.  \u{1b}[34m`\u{1b}[37mSc      .jr\u{1b}[34m`\n jr\u{1b}[34m`\u{1b}[37m       `?n_ \u{1b}[34m`\u{1b}[37m$;   _a2\"\u{1b}[34m`\n.m\u{1b}[34m:\u{1b}[37m          `~M\u{1b}[34m`\u{1b}[37m1k\u{1b}[34m`\u{1b}[37m5?!`\u{1b}[34m`\n:#\u{1b}[34m:\u{1b}[37m             \u{1b}[34m`\u{1b}[37m)e\u{1b}[34m```\n:m\u{1b}[34m:\u{1b}[37m             ,#'\u{1b}[34m`\n:#\u{1b}[34m:\u{1b}[37m           .s2'\u{1b}[34m`\n:m,________.aa7^\u{1b}[34m`\n:#baaaaaaas!J'\u{1b}[34m`\n ```````````")
}

pub fn ks_linux() -> (r: String)
    ensures
        r@ == icon_seq(Distro::KsLinux),
{
    String::from_str("\u{1b}[34m K   K U   U RRRR   ooo\n K  K  U   U R   R o   o\n KKK   U   U RRRR  o   o\n K  K  U   U R  R  o   o\n K   K  UUU  R   R  ooo\n\n\u{1b}[37m  SSS   AAA  W   W  AAA\n S     A   A W   W A   A\n  SSS  AAAAA W W W AAAAA\n     S A   A WW WW A   A\n  SSS  A   A W   W A   A")
}

pub fn kubuntu() -> (r: String)
    ensures
        r@ == icon_seq(Distro::Kubuntu),
{
    String::from_str("\u{1b}[34m           `.:/ossyyyysso/:.\n        .:oyyyyyyyyyyyyyyyyyyo:`\n      -oyyyyyyyo\u{1b}[37mdMMy\u{1b}[34myyyyyyysyyyyo-\n    -syyyyyyyyyy\u{1b}[37mdMMy\u{1b}[34moyyyy\u{1b}[37mdmMMy\u{1b}[34myyyys-\n   oyyys\u{1b}[37mdMy\u{1b}[34msyyyy\u{1b}[37mdMMMMMMMMMMMMMy\u{1b}[34myyyyyyo\n `oyyyy\u{1b}[37mdMMMMy\u{1b}[34msyysoooooo\u{1b}[37mdMMMMy\u{1b}[34myyyyyyyyo`\n oyyyyyy\u{1b}[37mdMMMMy\u{1b}[34myyyyyyyyyyys\u{1b}[37mdMMy\u{1b}[34msssssyyyo\n-yyyyyyyy\u{1b}[37mdMy\u{1b}[34msyyyyyyyyyyyyyys\u{1b}[37mdMMMMMy\u{1b}[34msyyy-\noyyyysoo\u{1b}[37mdMy\u{1b}[34myyyyyyyyyyyyyyyyyy\u{1b}[37mdMMMMy\u{1b}[34msyyyo\nyyys\u{1b}[37mdMMMMMy\u{1b}[34myyyyyyyyyyyyyyyyyysosyyyyyyyy\nyyys\u{1b}[37mdMMMMMy\u{1b}[34myyyyyyyyyyyyyyyyyyyyyyyyyyyyy\noyyyyysos\u{1b}[37mdy\u{1b}[34myyyyyyyyyyyyyyyyyy\u{1b}[37mdMMMMy\u{1b}[34msyyyo\n-yyyyyyyy\u{1b}[37mdMy\u{1b}[34msyyyyyyyyyyyyyys\u{1b}[37mdMMMMMy\u{1b}[34msyyy-\n oyyyyyy\u{1b}[37mdMMMy\u{1b}[34msyyyyyyyyyyys\u{1b}[37mdMMy\u{1b}[34moyyyoyyyo\n `oyyyy\u{1b}[37mdMMMy\u{1b}[34msyyyoooooo\u{1b}[37mdMMMMy\u{1b}[34moyyyyyyyyo\n   oyyysyyoyyyys\u{1b}[37mdMMMMMMMMMMMy\u{1b}[34myyyyyyyo\n    -syyyyyyyyy\u{1b}[37mdMMMy\u{1b}[34msyyy\u{1b}[37mdMMMy\u{1b}[34msyyyys-\n      -oyyyyyyy\u{1b}[37mdMMy\u{1b}[34myyyyyysosyyyyo-\n        ./oyyyyyyyyyyyyyyyyyyo/.\n           `.:/oosyyyysso/:.`")
}

pub fn lede() -> (r: String)
    ensures
        r@ == icon_seq(Distro::Lede),
{
    String::from_str("\u{1b}[34m _________\n    /        /\\\n   /  LE    /  \\\n  /    DE  /    \\\n /________/  LE  \\\n \\        \\   DE /\n  \\    LE  \\    /\n   \\  DE    \\  /\n    \\________\\/")
}

pub fn laxer_os() -> (r: String)
    ensures
        r@ == icon_seq(Distro::LaxerOs),
{
    String::from_str("\u{1b}[34m\n                    /.\n                 `://:-\n                `//////:\n               .////////:`\n              -//////////:`\n             -/////////////`\n            :///////////////.\n          `://////.```-//////-\n         `://///:`     .//////-\n        `//////:        `//////:\n       .//////-          `://///:`\n      -//////-            `://///:`\n     -//////.               ://////`\n    ://////`                 -//////.\n   `/////:`                   ./////:\n    .-::-`                     .:::-`\n\n.:://////////////////////////////////::.\n////////////////////////////////////////\n.:////////////////////////////////////:.")
}

pub fn libre_elec() -> (r: String)
    ensures
        r@ == icon_seq(Distro::LibreElec),
{
    String::from_str("\u{1b}[32m          :+ooo/.      \u{1b}[33m./ooo+:\n\u{1b}[32m        :+ooooooo/.  \u{1b}[33m./ooooooo+:\n\u{1b}[32m      :+ooooooooooo:\u{1b}[33m:ooooooooooo+:\n\u{1b}[32m    :+ooooooooooo+-  \u{1b}[33m-+ooooooooooo+:\n\u{1b}[32m  :+ooooooooooo+-  \u{1b}[37m--  \u{1b}[33m-+ooooooooooo+:\n\u{1b}[32m.+ooooooooooo+-  \u{1b}[37m:+oo+:  \u{1b}[33m-+ooooooooooo+-\n\u{1b}[32m-+ooooooooo+-  \u{1b}[37m:+oooooo+:  \u{1b}[33m-+oooooooooo-\n\u{1b}[32m  :+ooooo+-  \u{1b}[37m:+oooooooooo+:  \u{1b}[33m-+oooooo:\n\u{1b}[32m    :+o+-  \u{1b}[37m:+oooooooooooooo+:  \u{1b}[33m-+oo:\n\u{1b}[96m     ./   \u{1b}[37m:oooooooooooooooooo:   \u{1b}[95m/.\n\u{1b}[96m   ./oo+:  \u{1b}[37m-+oooooooooooooo+-  \u{1b}[95m:+oo/.\n\u{1b}[96m ./oooooo+:  \u{1b}[37m-+oooooooooo+-  \u{1b}[95m:+oooooo/.\n\u{1b}[96m-oooooooooo+:  \u{1b}[37m-+oooooo+-  \u{1b}[95m:+oooooooooo-\n\u{1b}[96m.+ooooooooooo+:  \u{1b}[37m-+oo+-  \u{1b}[95m:+ooooooooooo+.\n\u{1b}[96m  -+ooooooooooo+:  \u{1b}[37m..  \u{1b}[95m:+ooooooooooo+-\n\u{1b}[96m    -+ooooooooooo+:  \u{1b}[95m:+ooooooooooo+-\n\u{1b}[96m      -+oooooooooo+:\u{1b}[95m:+oooooooooo+-\n\u{1b}[96m        -+oooooo+:    \u{1b}[95m:+oooooo+-\n\u{1b}[96m          -+oo+:        \u{1b}[95m:+oo+-\n\u{1b}[96m            ..            \u{1b}[95m..")
}

pub fn linux() -> (r: String)
    ensures
        r@ == icon_seq(Distro::Linux),
{
    String::from_str("\u{1b}[90m        #####\n\u{1b}[90m       #######\n\u{1b}[90m       ##\u{1b}[37mO\u{1b}[90m#\u{1b}[37mO\u{1b}[90m##\n\u{1b}[90m       #\u{1b}[33m#####\u{1b}[90m#\n\u{1b}[90m     ##\u{1b}[37m##\u{1b}[33m###\u{1b}[37m##\u{1b}[90m##\n\u{1b}[90m    #\u{1b}[37m##########\u{1b}[90m##\n\u{1b}[90m   #\u{1b}[37m############\u{1b}[90m##\n\u{1b}[90m   #\u{1b}[37m############\u{1b}[90m###\n\u{1b}[33m  ##\u{1b}[90m#\u{1b}[37m###########\u{1b}[90m##\u{1b}[33m#\n\u{1b}[33m######\u{1b}[90m#\u{1b}[37m#######\u{1b}[90m#\u{1b}[33m######\n\u{1b}[33m#######\u{1b}[90m#\u{1b}[37m#####\u{1b}[90m#\u{1b}[33m#######\n\u{1b}[33m  #####\u{1b}[90m#######\u{1b}[33m#####")
}

pub fn linuxlite_small() -> (r: String)
    ensures
        r@ == icon_seq(Distro::LinuxliteSmall),
{
    String::from_str("\u{1b}[33m   /\\\\\n  /  \\\\\n / \u{1b}[37m/ \u{1b}[33m/\n> \u{1b}[37m/ \u{1b}[33m/\n\\\\ \u{1b}[37m\\\\ \u{1b}[33m\\\\\n \\\\_\u{1b}[37m\\\\\u{1b}[33m_\\\\\n\u{1b}[37m    \\\\")
}

pub fn linux_lite() -> (r: String)
    ensures
        r@ == icon_seq(Distro::LinuxLite),
{
    String::from_str("\u{1b}[33m          ,xXc\n      .l0MMMMMO\n   .kNMMMMMWMMMN,\n   KMMMMMMKMMMMMMo\n  'MMMMMMNKMMMMMM:\n  kMMMMMMOMMMMMMO\n .MMMMMMX0MMMMMW.\n oMMMMMMxWMMMMM:\n WMMMMMNkMMMMMO\n:MMMMMMOXMMMMW\n.0MMMMMxMMMMM;\n:;cKMMWxMMMMO\n'MMWMMXOMMMMl\n kMMMMKOMMMMMX:\n .WMMMMKOWMMM0c\n  lMMMMMWO0MNd:'\n   oollXMKXoxl;.\n     ':. .: .'\n              ..\n                .")
}

pub fn lmde() -> (r: String)
    ensures
        r@ == icon_seq(Distro::Lmde),
{
    String::from_str("\u{1b}[37m`.-::---..\n\u{1b}[32m      .:++++ooooosssoo:.\n    .+o++::.      `.:oos+.\n\u{1b}[32m   :oo:.`             -+oo\u{1b}[37m:\n\u{1b}[32m \u{1b}[37m`\u{1b}[32m+o/`    .\u{1b}[37m::::::\u{1b}[32m-.    .++-\u{1b}[37m`\n\u{1b}[32m\u{1b}[37m`\u{1b}[32m/s/    .yyyyyyyyyyo:   +o-\u{1b}[37m`\n\u{1b}[32m\u{1b}[37m`\u{1b}[32mso     .ss       ohyo` :s-\u{1b}[37m:\n\u{1b}[32m\u{1b}[37m`\u{1b}[32ms/     .ss  h  m  myy/ /s`\u{1b}[37m`\n\u{1b}[32m`s:     `oo  s  m  Myy+-o:`\n`oo      :+sdoohyoydyso/.\n :o.      .:////////++:\n\u{1b}[32m `/++        \u{1b}[37m-:::::-\n\u{1b}[32m  \u{1b}[37m`\u{1b}[32m++-\n\u{1b}[32m   \u{1b}[37m`\u{1b}[32m/+-\n\u{1b}[32m     \u{1b}[37m.\u{1b}[32m+/.\n\u{1b}[32m       \u{1b}[37m.\u{1b}[32m:+-.\n          `--.``")
}

pub fn lubuntu() -> (r: String)
    ensures
        r@ == icon_seq(Distro::Lubuntu),
{
    String::from_str("\u{1b}[34m           `.:/ossyyyysso/:.\n        `.:yyyyyyyyyyyyyyyyyy:.`\n      .:yyyyyyyyyyyyyyyyyyyyyyyy:.\n    .:yyyyyyyyyyyyyyyyyyyyyyyyyyyy:.\n   -yyyyyyyyyyyyyy\u{1b}[37m+hNMMMNh+\u{1b}[34myyyyyyyyy-\n  :yy\u{1b}[37mmNy+\u{1b}[34myyyyyyyy\u{1b}[37m+Nmso++smMdhyysoo+\u{1b}[34myy:\n -yy\u{1b}[37m+MMMmmy\u{1b}[34myyyyyy\u{1b}[37mhh\u{1b}[34myyyyyyyyyyyyyyyyyyy-\n.yyyy\u{1b}[37mNMN\u{1b}[34myy\u{1b}[37mshhs\u{1b}[34myyy\u{1b}[37m+o\u{1b}[34myyyyyyyyyyyyyyyyyyyy.\n:yyyy\u{1b}[37moNM+\u{1b}[34myyyy\u{1b}[37m+sso\u{1b}[34myyyyyyy\u{1b}[37mss\u{1b}[34myyyyyyyyyyyyy:\n:yyyyy\u{1b}[37m+dNs\u{1b}[34myyyyyyy\u{1b}[37m++\u{1b}[34myyyyy\u{1b}[37moN+\u{1b}[34myyyyyyyyyyyy:\n:yyyyy\u{1b}[37moMMmhysso\u{1b}[34myyyyyyyyyy\u{1b}[37mmN+\u{1b}[34myyyyyyyyyyy:\n:yyyyyy\u{1b}[37mhMm\u{1b}[34myyyyy\u{1b}[37m+++\u{1b}[34myyyyyyy\u{1b}[37m+MN\u{1b}[34myyyyyyyyyyy:\n.yyyyyyy\u{1b}[37mohmy+\u{1b}[34myyyyyyyyyyyyy\u{1b}[37mNMh\u{1b}[34myyyyyyyyyy.\n -yyyyyyyyyy\u{1b}[37m++\u{1b}[34myyyyyyyyyyyy\u{1b}[37mMMh\u{1b}[34myyyyyyyyy-\n  :yyyyyyyyyyyyyyyyyyyyy\u{1b}[37m+mMN+\u{1b}[34myyyyyyyy:\n   -yyyyyyyyyyyyyyyyy\u{1b}[37m+sdMMd+\u{1b}[34myyyyyyyy-\n    .:yyyyyyyyy\u{1b}[37mhmdmmNMNdy+\u{1b}[34myyyyyyyy:.\n      .:yyyyyyy\u{1b}[37mmy\u{1b}[34myyyyyyyyyyyyyyy:.\n        `.:yyyy\u{1b}[37ms\u{1b}[34myyyyyyyyyyyyy:.`\n           `.:/oosyyyysso/:.`")
}

pub fn lunar() -> (r: String)
    ensures
        r@ == icon_seq(Distro::Lunar),
{
    String::from_str("\u{1b}[34m`-.                                 `-.\n  -ohys/-`                    `:+shy/`\n     -omNNdyo/`          :+shmNNy/`\n             \u{1b}[33m      -\n                 /mMmo\n                 hMMMN`\n                 .NMMs\n    \u{1b}[34m  -:+oooo+//: \u{1b}[33m/MN\u{1b}[34m. -///oooo+/-`\n     /:.`          \u{1b}[33m/\u{1b}[34m           `.:/`\n\u{1b}[33m          __\n         |  |   _ _ ___ ___ ___\n         |  |__| | |   | .'|  _|\n         |_____|___|_|_|__,|_|")
}

pub fn mac() -> (r: String)
    ensures
        r@ == icon_seq(Distro::Mac),
{
    String::from_str("\u{1b}[32m       .:'\n    _ :'_\n\u{1b}[33m .'`_`-'_``.\n:________.-'\n\u{1b}[31m:_______:\n:_______:\n\u{1b}[35m :_______`-;\n\u{1b}[34m  `._.-._.'")
}

pub fn mageia_small() -> (r: String)
    ensures
        r@ == icon_seq(Distro::MageiaSmall),
{
    String::from_str("\u{1b}[36m   *\n    *\n   **\n\u{1b}[37m /\\\\__/\\\\\n/      \\\\\n\\\\      /\n \\\\____/")
}

pub fn mageia() -> (r: String)
    ensures
        r@ == icon_seq(Distro::Mageia),
{
    String::from_str("\u{1b}[36m        .°°.\n         °°   .°°.\n         .°°°. °°\n         .   .\n          °°° .°°°.\n      .°°°.   '___'\n\u{1b}[37m     .\u{1b}[36m'___'     \u{1b}[37m   .\n   :dkxc;'.  ..,cxkd;\n .dkk. kkkkkkkkkk .kkd.\n.dkk.  ';cloolc;.  .kkd\nckk.                .kk;\nxO:                  cOd\nxO:                  lOd\nlOO.                .OO:\n.k00.              .00x\n .k00;            ;00O.\n  .lO0Kc;,,,,,,;c0KOc.\n     ;d00KKKKKK00d;\n        .,KKKK,.")
}

pub fn magpie_os() -> (r: String)
    ensures
        r@ == icon_seq(Distro::MagpieOs),
{
    String::from_str("\u{1b}[32m        ;00000     :000Ol\n     .x00kk00:    O0kk00k;\n    l00:   :00.  o0k   :O0k.\n  .k0k.     x\u{1b}[31md$dddd\u{1b}[32mk'    .d00;\n  k0k.      \u{1b}[31m.dddddl       \u{1b}[32mo00,\n o00.        \u{1b}[31m':cc:.        \u{1b}[32md0O\n.00l                       ,00.\nl00.                       d0x\nk0O                     .:k0o\nO0k                 ;dO0000d.\nk0O               .O0O\u{1b}[31mxxxxk\u{1b}[32m00:\no00.              k0O\u{1b}[31mdddddd\u{1b}[32mocc\n'00l              x0O\u{1b}[31mdddddo\u{1b}[33m;..\u{1b}[32m\n x00.             .x00\u{1b}[31mkxxd\u{1b}[33m:..\u{1b}[32m\n .O0x               .:oxxx\u{1b}[35mOkl.\u{1b}[32m\n  .x0d                     \u{1b}[35m,xx,\u{1b}[32m\n    .:o.          \u{1b}[35m.xd       ckd\u{1b}[32m\n       ..          \u{1b}[35mdxl     .xx;\n                    :xxolldxd'\n                      ;oxdl.")
}

pub fn mandriva() -> (r: String)
    ensures
        r@ == icon_seq(Distro::Mandriva),
{
    String::from_str("\u{1b}[33m                        ``\n                       `-.\n\u{1b}[34m      `               \u{1b}[33m.---\n\u{1b}[34m    -/               \u{1b}[33m-::--`\n\u{1b}[34m  `++    \u{1b}[33m`----...```-:::::.\n\u{1b}[34m `os.      \u{1b}[33m.::::::::::::::-```     `  `\n\u{1b}[34m +s+         \u{1b}[33m.::::::::::::::::---...--`\n\u{1b}[34m-ss:          \u{1b}[33m`-::::::::::::::::-.``.``\n\u{1b}[34m/ss-           \u{1b}[33m.::::::::::::-.``   `\n\u{1b}[34m+ss:          \u{1b}[33m.::::::::::::-\n\u{1b}[34m/sso         \u{1b}[33m.::::::-::::::-\n\u{1b}[34m.sss/       \u{1b}[33m-:::-.`   .:::::\n\u{1b}[34m /sss+.    \u{1b}[33m..`\u{1b}[34m  `--`    \u{1b}[33m.:::\n\u{1b}[34m  -ossso+/:://+/-`        \u{1b}[33m.:`\n\u{1b}[34m    -/+ooo+/-.              \u{1b}[33m`")
}

pub fn manjaro_small() -> (r: String)
    ensures
        r@ == icon_seq(Distro::ManjaroSmall),
{
    String::from_str("\u{1b}[32m||||||||| ||||\n||||||||| ||||\n||||      ||||\n|||| |||| ||||\n|||| |||| ||||\n|||| |||| ||||\n|||| |||| ||||")
}

pub fn manjaro() -> (r: String)
    ensures
        r@ == icon_seq(Distro::Manjaro),
{
    String::from_str("\u{1b}[32m██████████████████  ████████\n██████████████████  ████████\n██████████████████  ████████\n██████████████████  ████████\n████████            ████████\n████████  ████████  ████████\n████████  ████████  ████████\n████████  ████████  ████████\n████████  ████████  ████████\n████████  ████████  ████████\n████████  ████████  ████████\n████████  ████████  ████████\n████████  ████████  ████████\n████████  ████████  ████████")
}

pub fn maui() -> (r: String)
    ensures
        r@ == icon_seq(Distro::Maui),
{
    String::from_str("\u{1b}[36m             `.-://////:--`\n         .:/oooooooooooooooo+:.\n      `:+ooooooooooooooooooooooo:`\n    `:oooooooooooooooooooooooooooo/`\n    ..```-oooooo/-`` `:oooooo+:.` `--\n  :.      +oo+-`       /ooo/`       -/\n -o.     `o+-          +o/`         -o:\n`oo`     ::`  :o/     `+.  .+o`     /oo.\n/o+      .  -+oo-     `   /oo/     `ooo/\n+o-        /ooo+`       .+ooo.     :ooo+\n++       .+oooo:       -oooo+     `oooo+\n:.      .oooooo`      :ooooo-     :oooo:\n`      .oooooo:      :ooooo+     `ooo+-`\n      .+oooooo`     -oooooo:     `o/-\n      +oooooo:     .ooooooo.\n     /ooooooo`     /ooooooo/       ..\n    `:oooooooo/:::/ooooooooo+:--:/:`\n      `:+oooooooooooooooooooooo+:`\n         .:+oooooooooooooooo+:.\n             `.-://////:-.`")
}

pub fn mer() -> (r: String)
    ensures
        r@ == icon_seq(Distro::Mer),
{
    String::from_str("\u{1b}[34m                         dMs\n                         .-`\n                       `y`-o+`\n                        ``NMMy\n                      .--`:++.\n                    .hNNNNs\n                    /MMMMMN\n                    `ommmd/ +/\n                      ````  +/\n                     `:+sssso/-`\n  .-::. `-::-`     `smNMNmdmNMNd/      .://-`\n.ymNMNNdmNMMNm+`  -dMMh:.....+dMMs   `sNNMMNo\ndMN+::NMMy::hMM+  mMMo `ohhy/ `dMM+  yMMy::-\nMMm   yMM-  :MMs  NMN` `:::::--sMMh  dMM`\nMMm   yMM-  -MMs  mMM+ `ymmdsymMMMs  dMM`\nNNd   sNN-  -NNs  -mMNs-.--..:dMMh`  dNN\n---   .--`  `--.   .smMMmdddmMNdo`   .--\n                     ./ohddds+:`\n                     +h- `.:-.\n                     ./`.dMMMN+\n                        +MMMMMd\n                        `+dmmy-\n                      ``` .+`\n                     .dMNo-y.\n                     `hmm/\n                         .:`\n                         dMs")
}

pub fn minix() -> (r: String)
    ensures
        r@ == icon_seq(Distro::Minix),
{
    String::from_str("\u{1b}[37m   -sdhyo+:-`                -/syymm:\n   sdyooymmNNy.     ``    .smNmmdysNd\n   odyoso+syNNmysoyhhdhsoomNmm+/osdm/\n    :hhy+-/syNNmddhddddddmNMNo:sdNd:\n     `smNNdNmmNmddddddddddmmmmmmmy`\n   `ohhhhdddddmmNNdmddNmNNmdddddmdh-\n   odNNNmdyo/:/-/hNddNy-`..-+ydNNNmd:\n `+mNho:`   smmd/ sNNh :dmms`   -+ymmo.\n-od/       -m\u{1b}[31mmm\u{1b}[37mmo -NN+ +m\u{1b}[31mmm\u{1b}[37mm-       yms:\n+sms -.`    :so:  .NN+  :os/     .-`mNh:\n.-hyh+:////-     -sNNd:`    .--://ohNs-\n `:hNNNNNNNMMd/sNMmhsdMMh/ymmNNNmmNNy/\n  -+sNNNNMMNNNsmNMo: :NNmymNNNNMMMms:\n    //oydNMMMMydMMNysNMMmsMMMMMNyo/`\n       ../-yNMMy--/::/-.sMMmos+.`\n           -+oyhNsooo+omy/```\n              `::ohdmds-`")
}

pub fn linuxmint_small() -> (r: String)
    ensures
        r@ == icon_seq(Distro::LinuxmintSmall),
{
    String::from_str("\u{1b}[32m ___________\n|_          \\\\\n  | \u{1b}[37m| _____ \u{1b}[32m|\n  | \u{1b}[37m| | | | \u{1b}[32m|\n  | \u{1b}[37m| | | | \u{1b}[32m|\n  | \u{1b}[37m\\\\__\u{1b}[37m___/ \u{1b}[32m|\n  \\\\_________/")
}

pub fn linux_mint_old() -> (r: String)
    ensures
        r@ == icon_seq(Distro::LinuxMintOld),
{
    String::from_str("\u{1b}[32mMMMMMMMMMMMMMMMMMMMMMMMMMmds+.\nMMm----::-://////////////oymNMd+`\nMMd      \u{1b}[37m/++                \u{1b}[32m-sNMd:\nMMNso/`  \u{1b}[37mdMM    `.::-. .-::.` \u{1b}[32m.hMN:\nddddMMh  \u{1b}[37mdMM   :hNMNMNhNMNMNh: \u{1b}[32m`NMm\n    NMm  \u{1b}[37mdMM  .NMN/-+MMM+-/NMN` \u{1b}[32mdMM\n    NMm  \u{1b}[37mdMM  -MMm  `MMM   dMM. \u{1b}[32mdMM\n    NMm  \u{1b}[37mdMM  -MMm  `MMM   dMM. \u{1b}[32mdMM\n    NMm  \u{1b}[37mdMM  .mmd  `mmm   yMM. \u{1b}[32mdMM\n    NMm  \u{1b}[37mdMM`  ..`   ...   ydm. \u{1b}[32mdMM\n    hMM- \u{1b}[37m+MMd/-------...-:sdds  \u{1b}[32mdMM\n    -NMm- \u{1b}[37m:hNMNNNmdddddddddy/`  \u{1b}[32mdMM\n     -dMNs-\u{1b}[37m``-::::-------.``    \u{1b}[32mdMM\n      `/dMNmy+/:-------------:/yMMM\n         ./ydNMMMMMMMMMMMMMMMMMMMMM\n            .MMMMMMMMMMMMMMMMMMM")
}

pub fn linux_mint() -> (r: String)
    ensures
        r@ == icon_seq(Distro::LinuxMint),
{
    String::from_str("\u{1b}[37m             ...-:::::-...\n\u{1b}[37m          .-MMMMMMMMMMMMMMM-.\n      .-MMMM\u{1b}[32m`..-:::::::-..`\u{1b}[37mMMMM-.\n    .:MMMM\u{1b}[32m.:MMMMMMMMMMMMMMM:.\u{1b}[37mMMMM:.\n   -MMM\u{1b}[32m-M---MMMMMMMMMMMMMMMMMMM.\u{1b}[37mMMM-\n `:MMM\u{1b}[32m:MM`  :MMMM:....::-...-MMMM:\u{1b}[37mMMM:`\n :MMM\u{1b}[32m:MMM`  :MM:`  ``    ``  `:MMM:\u{1b}[37mMMM:\n.MMM\u{1b}[32m.MMMM`  :MM.  -MM.  .MM-  `MMMM.\u{1b}[37mMMM.\n:MMM\u{1b}[32m:MMMM`  :MM.  -MM-  .MM:  `MMMM-\u{1b}[37mMMM:\n:MMM\u{1b}[32m:MMMM`  :MM.  -MM-  .MM:  `MMMM:\u{1b}[37mMMM:\n:MMM\u{1b}[32m:MMMM`  :MM.  -MM-  .MM:  `MMMM-\u{1b}[37mMMM:\n.MMM\u{1b}[32m.MMMM`  :MM:--:MM:--:MM:  `MMMM.\u{1b}[37mMMM.\n :MMM\u{1b}[32m:MMM-  `-MMMMMMMMMMMM-`  -MMM-\u{1b}[37mMMM:\n  :MMM\u{1b}[32m:MMM:`                `:MMM:\u{1b}[37mMMM:\n   .MMM\u{1b}[32m.MMMM:--------------:MMMM.\u{1b}[37mMMM.\n     '-MMMM\u{1b}[32m.-MMMMMMMMMMMMMMM-.\u{1b}[37mMMMM-'\n       '.-MMMM\u{1b}[32m``--:::::--``\u{1b}[37mMMMM-.'\n\u{1b}[37m            '-MMMMMMMMMMMMM-'\n\u{1b}[37m               ``-:::::-``")
}

pub fn live_raizo() -> (r: String)
    ensures
        r@ == icon_seq(Distro::LiveRaizo),
{
    String::from_str("\u{1b}[33m             `......`\n        -+shmNMMMMMMNmhs/.\n     :smMMMMMmmhyyhmmMMMMMmo-\n   -hMMMMd+:. `----` .:odMMMMh-\n `hMMMN+. .odNMMMMMMNdo. .yMMMMs`\n hMMMd. -dMMMMmdhhdNMMMNh` .mMMMh\noMMMm` :MMMNs.:sddy:-sMMMN- `NMMM+\nmMMMs  dMMMo sMMMMMMd yMMMd  sMMMm\n----`  .---` oNMMMMMh `---.  .----\n              .sMMy:\n               /MM/\n              +dMMms.\n             hMMMMMMN\n            `dMMMMMMm:\n      .+ss+sMNysMMoomMd+ss+.\n     +MMMMMMN` +MM/  hMMMMMNs\n     sMMMMMMm-hNMMMd-hMMMMMMd\n      :yddh+`hMMMMMMN :yddy/`\n             .hMMMMd:\n               `..`")
}

pub fn mx_small() -> (r: String)
    ensures
        r@ == icon_seq(Distro::MxSmall),
{
    String::from_str("\u{1b}[37m    \\\\\\\\  /\n     \\\\\\\\/\n      \\\\\\\\\n   /\\\\/ \\\\\\\\\n  /  \\\\  /\\\\\n /    \\\\/  \\\\\n/__________\\\\")
}

pub fn mx() -> (r: String)
    ensures
        r@ == icon_seq(Distro::Mx),
{
    String::from_str("\u{1b}[37mMMMMMMMMMMMMMMMMMMMMMMMMMMMMMMNMMMMMMMMM\nMMMMMMMMMMNs..yMMMMMMMMMMMMMm: +NMMMMMMM\nMMMMMMMMMN+    :mMMMMMMMMMNo` -dMMMMMMMM\nMMMMMMMMMMMs.   `oNMMMMMMh- `sNMMMMMMMMM\nMMMMMMMMMMMMN/    -hMMMN+  :dMMMMMMMMMMM\nMMMMMMMMMMMMMMh-    +ms. .sMMMMMMMMMMMMM\nMMMMMMMMMMMMMMMN+`   `  +NMMMMMMMMMMMMMM\nMMMMMMMMMMMMMMNMMd:    .dMMMMMMMMMMMMMMM\nMMMMMMMMMMMMm/-hMd-     `sNMMMMMMMMMMMMM\nMMMMMMMMMMNo`   -` :h/    -dMMMMMMMMMMMM\nMMMMMMMMMd:       /NMMh-   `+NMMMMMMMMMM\nMMMMMMMNo`         :mMMN+`   `-hMMMMMMMM\nMMMMMMh.            `oNMMd:    `/mMMMMMM\nMMMMm/                -hMd-      `sNMMMM\nMMNs`                   -          :dMMM\nMm:                                 `oMM\nMMMMMMMMMMMMMMMMMMMMMMMMMMMMMMMMMMMMMMMM")
}

pub fn namib() -> (r: String)
    ensures
        r@ == icon_seq(Distro::Namib),
{
    String::from_str("\u{1b}[31m          .:+shysyhhhhysyhs+:.\n       -/yyys              syyy/-\n     -shy                      yhs-\n   -yhs                          shy-\n  +hy                              yh+\n +ds                                sd+\n/ys                  so              sy/\nsh                 smMMNdyo           hs\nyo               ymMMMMNNMMNho        oy\nN             ydMMMNNMMMMMMMMMmy       N\nN         shmMMMMNNMMMMMMMMMMMMMNy     N\nyo  ooshmNMMMNNNNMMMMMMMMMMMMMMMMMms  oy\nsd yyyyyyyyyyyyyyyyyyyyyyyyyyyyyyyyyy ds\n/ys                                  sy/\n +ds                                sd+\n  +hy                              yh+\n   -yhs                          shy-\n     -shy                      yhs-\n       -/yyys              syyy/-\n          .:+shysyhyhhysyhs+:.")
}

pub fn neptune() -> (r: String)
    ensures
        r@ == icon_seq(Distro::Neptune),
{
    String::from_str("\u{1b}[37m            ./+sydddddddys/-.\n        .+ymNNdyooo/:+oooymNNmy/`\n     `/hNNh/.`             `-+dNNy:`\n    /mMd/.          .++.:oy/   .+mMd-\n  `sMN/             oMMmdy+.     `oNNo\n `hMd.           `/ymy/.           :NMo\n oMN-          `/dMd:               /MM-\n`mMy          -dMN+`                 mMs\n.MMo         -NMM/                   yMs\n dMh         mMMMo:`                `NMo\n /MM/        /ymMMMm-               sMN.\n  +Mm:         .hMMd`              oMN/\n   +mNs.      `yNd/`             -dMm-\n    .yMNs:    `/.`            `/yNNo`\n      .odNNy+-`           .:ohNNd/.\n         -+ymNNmdyyyyyyydmNNmy+.\n             `-//sssssss//.")
}

pub fn netbsd_small() -> (r: String)
    ensures
        r@ == icon_seq(Distro::NetbsdSmall),
{
    String::from_str("\u{1b}[37m\\\\\\\\\u{1b}[35m\\`-______,----__\n\u{1b}[37m \\\\\\\\        \u{1b}[35m__,---\\`_\n\u{1b}[37m  \\\\\\\\       \u{1b}[35m\\`.____\n\u{1b}[37m   \\\\\\\\\u{1b}[35m-______,----\\`-\n\u{1b}[37m    \\\\\\\\\n     \\\\\\\\\n      \\\\\\\\")
}

pub fn net_bsd() -> (r: String)
    ensures
        r@ == icon_seq(Distro::NetBsd),
{
    String::from_str("\u{1b}[35m                     `-/oshdmNMNdhyo+:-`\n\u{1b}[37my\u{1b}[35m/s+:-``    `.-:+oydNMMMMNhs/-``\n\u{1b}[37m-m+\u{1b}[35mNMMMMMMMMMMMMMMMMMMMNdhmNMMMmdhs+/-`\n \u{1b}[37m-m+\u{1b}[35mNMMMMMMMMMMMMMMMMMMMMmy+:`\n  \u{1b}[37m-N/\u{1b}[35mdMMMMMMMMMMMMMMMds:`\n   \u{1b}[37m-N/\u{1b}[35mhMMMMMMMMMmho:`\n    \u{1b}[37m-N/\u{1b}[35m-:/++/:.`\n\u{1b}[37m     :M+\n      :Mo\n       :Ms\n        :Ms\n         :Ms\n          :Ms\n           :Ms\n            :Ms\n             :Ms\n              :Ms")
}

pub fn netrunner() -> (r: String)
    ensures
        r@ == icon_seq(Distro::Netrunner),
{
    String::from_str("\u{1b}[34m           .:oydmMMMMMMmdyo:`\n        -smMMMMMMMMMMMMMMMMMMds-\n      +mMMMMMMMMMMMMMMMMMMMMMMMMd+\n    /mMMMMMMMMMMMMMMMMMMMMMMMMMMMMm/\n  `hMMMMMMMMMMMMMMMMMMMMMMMMMMMMMMMMy`\n .mMMMMMMMMMMMMMMMMMMMMMMMMMMMMMMMMMMd`\n dMMMMMMMMMMMMMMMMMMMMMMNdhmMMMMMMMMMMh\n+MMMMMMMMMMMMMNmhyo+/-.   -MMMMMMMMMMMM/\nmMMMMMMMMd+:.`           `mMMMMMMMMMMMMd\nMMMMMMMMMMMdy/.          yMMMMMMMMMMMMMM\nMMMMMMMMMMMMMMMNh+`     +MMMMMMMMMMMMMMM\nmMMMMMMMMMMMMMMMMMs    -NMMMMMMMMMMMMMMd\n+MMMMMMMMMMMMMMMMMN.  `mMMMMMMMMMMMMMMM/\n dMMMMMMMMMMMMMMMMMy  hMMMMMMMMMMMMMMMh\n `dMMMMMMMMMMMMMMMMM-+MMMMMMMMMMMMMMMd`\n  `hMMMMMMMMMMMMMMMMmMMMMMMMMMMMMMMMy\n    /mMMMMMMMMMMMMMMMMMMMMMMMMMMMMm:\n      +dMMMMMMMMMMMMMMMMMMMMMMMMd/\n        -odMMMMMMMMMMMMMMMMMMdo-\n           `:+ydmNMMMMNmhy+-`")
}

pub fn nitrux() -> (r: String)
    ensures
        r@ == icon_seq(Distro::Nitrux),
{
    String::from_str("\u{1b}[34m`:/.\n`/yo\n`/yo\n`/yo      .+:.\n`/yo      .sys+:.`\n`/yo       `-/sys+:.`\n`/yo           ./sss+:.`\n`/yo              .:oss+:-`\n`/yo                 ./o///:-`\n`/yo              `.-:///////:`\n`/yo           `.://///++//-``\n`/yo       `.-:////++++/-`\n`/yo    `-://///++o+/-`\n`/yo `-/+o+++ooo+/-`\n`/s+:+oooossso/.`\n`//+sssssso:.\n`+syyyy+:`\n:+s+-")
}

pub fn nixos_small() -> (r: String)
    ensures
        r@ == icon_seq(Distro::NixosSmall),
{
    String::from_str("\u{1b}[34m  \\\\\\\\  \\\\\\\\ //\n ==\\\\\\\\__\\\\\\\\/ //\n   //   \\\\\\\\//\n==//     //==\n //\\\\\\\\___//\n// /\\\\\\\\  \\\\\\\\==\n  // \\\\\\\\  \\\\\\\\")
}

pub fn nixos_old() -> (r: String)
    ensures
        r@ == icon_seq(Distro::NixosOld),
{
    String::from_str("\u{1b}[34m          ::::.    \u{1b}[36m':::::     ::::'\n\u{1b}[34m          ':::::    \u{1b}[36m':::::.  ::::'\n\u{1b}[34m            :::::     \u{1b}[36m'::::.:::::\n\u{1b}[34m      .......:::::..... \u{1b}[36m::::::::\n\u{1b}[34m     ::::::::::::::::::. \u{1b}[36m::::::    \u{1b}[34m::::.\n    ::::::::::::::::::::: \u{1b}[36m:::::.  \u{1b}[34m.::::'\n\u{1b}[36m           .....           ::::' \u{1b}[34m:::::'\n\u{1b}[36m          :::::            '::' \u{1b}[34m:::::'\n\u{1b}[36m ........:::::               ' \u{1b}[34m:::::::::::.\n\u{1b}[36m:::::::::::::                 \u{1b}[34m:::::::::::::\n\u{1b}[36m ::::::::::: \u{1b}[34m..              \u{1b}[34m:::::\n\u{1b}[36m     .::::: \u{1b}[34m.:::            \u{1b}[34m:::::\n\u{1b}[36m    .:::::  \u{1b}[34m:::::          \u{1b}[34m'''''    \u{1b}[36m.....\n    :::::   \u{1b}[34m':::::.  \u{1b}[36m......:::::::::::::'\n     :::     \u{1b}[34m::::::. \u{1b}[36m':::::::::::::::::'\n\u{1b}[34m            .:::::::: \u{1b}[36m'::::::::::\n\u{1b}[34m           .::::''::::.     \u{1b}[36m'::::.\n\u{1b}[34m          .::::'   ::::.     \u{1b}[36m'::::.\n\u{1b}[34m         .::::      ::::      \u{1b}[36m'::::.")
}

pub fn nix_os() -> (r: String)
    ensures
        r@ == icon_seq(Distro::NixOs),
{
    String::from_str("\u{1b}[34m          ▗▄▄▄       \u{1b}[36m▗▄▄▄▄    ▄▄▄▖\n\u{1b}[34m          ▜███▙       \u{1b}[36m▜███▙  ▟███▛\n\u{1b}[34m           ▜███▙       \u{1b}[36m▜███▙▟███▛\n\u{1b}[34m            ▜███▙       \u{1b}[36m▜██████▛\n\u{1b}[34m     ▟█████████████████▙ \u{1b}[36m▜████▛     \u{1b}[34m▟▙\n\u{1b}[34m    ▟███████████████████▙ \u{1b}[36m▜███▙    \u{1b}[34m▟██▙\n\u{1b}[36m           ▄▄▄▄▖           ▜███▙  \u{1b}[34m▟███▛\n\u{1b}[36m          ▟███▛             ▜██▛ \u{1b}[34m▟███▛\n\u{1b}[36m         ▟███▛               ▜▛ \u{1b}[34m▟███▛\n\u{1b}[36m▟███████████▛                  \u{1b}[34m▟██████████▙\n\u{1b}[36m▜██████████▛                  \u{1b}[34m▟███████████▛\n\u{1b}[36m      ▟███▛ \u{1b}[34m▟▙               ▟███▛\n\u{1b}[36m     ▟███▛ \u{1b}[34m▟██▙             ▟███▛\n\u{1b}[36m    ▟███▛  \u{1b}[34m▜███▙           ▝▀▀▀▀\n\u{1b}[36m    ▜██▛    \u{1b}[34m▜███▙ \u{1b}[36m▜██████████████████▛\n\u{1b}[36m     ▜▛     \u{1b}[34m▟████▙ \u{1b}[36m▜████████████████▛\n\u{1b}[34m           ▟██████▙       \u{1b}[36m▜███▙\n\u{1b}[34m          ▟███▛▜███▙       \u{1b}[36m▜███▙\n\u{1b}[34m         ▟███▛  ▜███▙       \u{1b}[36m▜███▙\n\u{1b}[34m         ▝▀▀▀    ▀▀▀▀▘       \u{1b}[36m▀▀▀▘")
}

pub fn nurunner() -> (r: String)
    ensures
        r@ == icon_seq(Distro::Nurunner),
{
    String::from_str("\u{1b}[34m                  ,xc\n                ;00cxXl\n              ;K0,   .xNo.\n            :KO'       .lXx.\n          cXk.    ;xl     cXk.\n        cXk.    ;k:.,xo.    cXk.\n     .lXx.    :x::0MNl,dd.    :KO,\n   .xNx.    cx;:KMMMMMNo'dx.    ;KK;\n .dNl.    cd,cXMMMMMMMMMWd,ox'    'OK:\n;WK.    'K,.KMMMMMMMMMMMMMWc.Kx     lMO\n 'OK:    'dl'xWMMMMMMMMMM0::x:    'OK:\n   .kNo    .xo'xWMMMMMM0;:O:    ;KK;\n     .dXd.   .do,oNMMO;ck:    ;00,\n        oNd.   .dx,;'cO;    ;K0,\n          oNx.    okk;    ;K0,\n            lXx.        :KO'\n              cKk'    cXk.\n                ;00:lXx.\n                  ,kd.")
}

pub fn nu_ty_x() -> (r: String)
    ensures
        r@ == icon_seq(Distro::NuTyX),
{
    String::from_str("\u{1b}[34m                                      .\n                                    .\n                                 ...\n                               ...\n            ....     .........--.\n       ..-++-----....--++++++---.\n    .-++++++-.   .-++++++++++++-----..\n  .--...  .++..-+++--.....-++++++++++--..\n .     .-+-. .**-            ....  ..-+----..\n     .+++.  .*+.         +            -++-----.\n   .+++++-  ++.         .*+.     .....-+++-----.\n  -+++-++. .+.          .-+***++***++--++++.  .\n -+-. --   -.          -*- ......        ..--.\n.-. .+-    .          -+.\n.  .+-                +.\n   --                 --\n  -+----.              .-\n  -++-.+.                .\n .++. --\n  +.  ----.\n  .  .+. ..\n      -  .\n      .")
}

pub fn ob_revenge() -> (r: String)
    ensures
        r@ == icon_seq(Distro::ObRevenge),
{
    String::from_str("\u{1b}[31m   __   __\n     _@@@@   @@@g_\n   _@@@@@@   @@@@@@\n  _@@@@@@M   W@@@@@@_\n j@@@@P        ^W@@@@\n @@@@L____  _____Q@@@@\nQ@@@@@@@@@@j@@@@@@@@@@\n@@@@@    T@j@    T@@@@@\n@@@@@ ___Q@J@    _@@@@@\n@@@@@fMMM@@j@jggg@@@@@@\n@@@@@    j@j@^MW@P @@@@\nQ@@@@@ggg@@f@   @@@@@@L\n^@@@@WWMMP  ^    Q@@@@\n @@@@@_         _@@@@l\n  W@@@@@g_____g@@@@@P\n   @@@@@@@@@@@@@@@@l\n    ^W@@@@@@@@@@@P\n       ^TMMMMTll")
}

pub fn openbsd_small() -> (r: String)
    ensures
        r@ == icon_seq(Distro::OpenbsdSmall),
{
    String::from_str("\u{1b}[33m      _____\n    \\\\-     -/\n \\\\_/         \\\\\n |        \u{1b}[37mO O\u{1b}[33m |\n |_  <   )  3 )\n / \\\\         /\n    /-_____-\\\\")
}

pub fn open_bsd() -> (r: String)
    ensures
        r@ == icon_seq(Distro::OpenBsd),
{
    String::from_str("\u{1b}[36m                                     _\n                                    (_)\n\u{1b}[33m              |    .\n\u{1b}[33m          .   |L  /|   .         \u{1b}[36m _\n\u{1b}[33m      _ . |\\ _| \\--+._/| .       \u{1b}[36m(_)\n\u{1b}[33m     / ||\\| Y J  )   / |/| ./\n    J  |)'( |        ` F`.'/       \u{1b}[36m _\n\u{1b}[33m  -<|  F         __     .-<        \u{1b}[36m(_)\n\u{1b}[33m    | /       .-'\u{1b}[36m. \u{1b}[33m`.  /\u{1b}[36m-. \u{1b}[33mL___\n    J \\\\      <    \u{1b}[36m\\ \u{1b}[33m | | \u{1b}[90mO\u{1b}[36m\\\\\u{1b}[33m|.-' \u{1b}[36m _\n\u{1b}[33m  _J \\\\  .-    \\\\\u{1b}[36m/ \u{1b}[90mO \u{1b}[36m| \u{1b}[33m| \\\\  |\u{1b}[33mF    \u{1b}[36m(_)\n\u{1b}[33m '-F  -<_.     \\\\   .-'  `-' L__\n__J  _   _.     >-'  \u{1b}[33m)\u{1b}[31m._.   \u{1b}[33m|-'\n\u{1b}[33m `-|.'   /_.          \u{1b}[31m\\_|  \u{1b}[33m F\n  /.-   .                _.<\n /'    /.'             .'  `\\\\\n  /L  /'   |/      _.-'-\\\\\n /'J       ___.---'\\|\n   |\\  .--' V  | `. `\n   |/`. `-.     `._)\n      / .-.\\\\\n      \\\\ (  `\\\\\n       `.\\\\")
}

pub fn open_euler() -> (r: String)
    ensures
        r@ == icon_seq(Distro::OpenEuler),
{
    String::from_str("\u{1b}[34m                 `.cc.`\n             ``.cccccccc..`\n          `.cccccccccccccccc.`\n      ``.cccccccccccccccccccccc.``\n   `..cccccccccccccccccccccccccccc..`\n`.ccccccccccccccc\u{1b}[37m/++/\u{1b}[34mccccccccccccccccc.`\n.ccccccccccccccc\u{1b}[37mmNMMNdo+oso+\u{1b}[34mccccccccccc.\n.cccccccccc\u{1b}[37m/++odms+//+mMMMMm/:+syso/\u{1b}[34mcccc\n.ccccccccc\u{1b}[37myNNMMMs:::/::+o+/:\u{1b}[34mc\u{1b}[37mdMMMMMm\u{1b}[34mcccc\n.ccccccc\u{1b}[37m:+NmdyyhNNmNNNd:\u{1b}[34mccccc\u{1b}[34m\u{1b}[37m:oyyyo:\u{1b}[34mcccc\n.ccc\u{1b}[37m:ohdmMs:\u{1b}[34mcccc\u{1b}[37m+mNMNmy\u{1b}[34mccccccccccccccccc\n.cc\u{1b}[37m/NMMMMMo////:\u{1b}[34mc\u{1b}[37m:///:\u{1b}[34mcccccccccccccccccc\n.cc\u{1b}[37m:syysyNMNNNMNy\u{1b}[34mccccccccccccccccccccccc\n.cccccccc\u{1b}[37m+MMMMMNy\u{1b}[34mc\u{1b}[37m:/+++/\u{1b}[34mcccccccccccccccc\n.ccccccccc\u{1b}[37mohhhs/\u{1b}[34mc\u{1b}[37momMMMMNh\u{1b}[34mccccccccccccccc\n.ccccccccccccccc\u{1b}[37m:MMMMMMMM/\u{1b}[34mcccccccccccccc\n.cccccccccccccccc\u{1b}[37msNNNNNd+\u{1b}[34mcccccccccccccc.\n`..cccccccccccccccc\u{1b}[37m/+/:\u{1b}[34mcccccccccccccc..`\n   ``.cccccccccccccccccccccccccccc.``\n       `.cccccccccccccccccccccc.`\n          ``.cccccccccccccc.``\n              `.cccccccc.`\n                 `....`")
}

pub fn open_indiana() -> (r: String)
    ensures
        r@ == icon_seq(Distro::OpenIndiana),
{
    String::from_str("\u{1b}[37m                         .sy/\n                         .yh+\n\n           \u{1b}[34m-+syyyo+-     \u{1b}[37m /+.\n         \u{1b}[34m+ddo/---/sdh/   \u{1b}[37m ym-\n       \u{1b}[34m`hm+        `sms\u{1b}[37m   ym-```````.-.\n       \u{1b}[34msm+           sm/ \u{1b}[37m ym-         +s\n       \u{1b}[34mhm.           /mo \u{1b}[37m ym-         /h\n       \u{1b}[34momo           ym: \u{1b}[37m ym-       `os`\n        \u{1b}[34msmo`       .ym+ \u{1b}[37m  ym-     .os-\n     ``  \u{1b}[34m:ymy+///oyms- \u{1b}[37m   ym-  .+s+.\n   ..`     \u{1b}[34m`:+oo+/-`  \u{1b}[37m    -//oyo-\n -:`                   .:oys/.\n+-               `./oyys/.\nh+`      `.-:+oyyyo/-`\n`/ossssysso+/-.`")
}

pub fn openmamba() -> (r: String)
    ensures
        r@ == icon_seq(Distro::Openmamba),
{
    String::from_str("\u{1b}[37m                 `````\n           .-/+ooooooooo+/:-`\n        ./ooooooooooooooooooo+:.\n      -+oooooooooooooooooooooooo+-\n    .+ooooooooo+/:---::/+ooooooooo+.\n   :oooooooo/-`          `-/oo\u{1b}[32ms´\u{1b}[37moooo.\u{1b}[32ms´\u{1b}[37m\n  :ooooooo/`                `\u{1b}[32msNds\u{1b}[37mooo\u{1b}[32msNds\u{1b}[37m\n -ooooooo-                   \u{1b}[32m:dmy\u{1b}[37mooo\u{1b}[32m:dmy\u{1b}[37m\n +oooooo:                      :oooooo-\n.ooooooo                        .://:`\n:oooooo+                        ./+o+:`\n-ooooooo`                      `oooooo+\n`ooooooo:                      /oooooo+\n -ooooooo:                    :ooooooo.\n  :ooooooo+.                .+ooooooo:\n   :oooooooo+-`          `-+oooooooo:\n    .+ooooooooo+/::::://oooooooooo+.\n      -+oooooooooooooooooooooooo+-\n        .:ooooooooooooooooooo+:.\n           `-:/ooooooooo+/:.`\n                 ``````")
}

pub fn open_mandriva() -> (r: String)
    ensures
        r@ == icon_seq(Distro::OpenMandriva),
{
    String::from_str("\u{1b}[34m                  ``````\n            `-:/+++++++//:-.`\n         .:+++oooo+/:.``   ``\n      `:+ooooooo+:.  `-:/++++++/:.`\n     -+oooooooo:` `-++o+/::::://+o+/-\n   `/ooooooooo-  -+oo/.`        `-/oo+.\n  `+ooooooooo.  :os/`              .+so:\n  +sssssssss/  :ss/                 `+ss-\n :ssssssssss`  sss`                  .sso\n ossssssssss  `yyo                    sys\n`sssssssssss` `yys                   `yys\n`sssssssssss:  +yy/                  +yy:\n oyyyyyyyyyys. `oyy/`              `+yy+\n :yyyyyyyyyyyo. `+yhs:.         `./shy/\n  oyyyyyyyyyyys:` .oyhys+:----/+syhy+. `\n  `syyyyyyyyyyyyo-` .:osyhhhhhyys+:``.:`\n   `oyyyyyyyyyyyyys+-`` `.----.```./oo.\n     /yhhhhhhhhhhhhhhyso+//://+osyhy/`\n      `/yhhhhhhhhhhhhhhhhhhhhhhhhy/`\n        `:oyhhhhhhhhhhhhhhhhhhyo:`\n            .:+syhhhhhhhhys+:-`\n                 ``....``")
}

pub fn open_stage() -> (r: String)
    ensures
        r@ == icon_seq(Distro::OpenStage),
{
    String::from_str("\u{1b}[32m                 /(/\n              .(((((((,\n             /(((((((((/\n           .(((((/,/(((((,\n          *(((((*   ,(((((/\n          (((((*      .*/((\n         *((((/  (//(/*\n         /((((*  ((((((((((,\n      .  /((((*  (((((((((((((.\n     ((. *((((/        ,((((((((\n   ,(((/  (((((/     **   ,((((((*\n  /(((((. .(((((/   //(((*  *(((((/\n .(((((,    ((/   .(((((/.   .(((((,\n /((((*        ,(((((((/      ,(((((\n /(((((((((((((((((((/.  /(((((((((/\n /(((((((((((((((((,   /(((((((((((/\n     */(((((//*.      */((/(/(/*")
}

pub fn open_wrt() -> (r: String)
    ensures
        r@ == icon_seq(Distro::OpenWrt),
{
    String::from_str("\u{1b}[34m _______\n|       |.-----.-----.-----.\n|   -   ||  _  |  -__|     |\n|_______||   __|_____|__|__|\n         |__|\n ________        __\n|  |  |  |.----.|  |_\n|  |  |  ||   _||   _|\n|________||__|  |____|")
}

pub fn open_source_media_center() -> (r: String)
    ensures
        r@ == icon_seq(Distro::OpenSourceMediaCenter),
{
    String::from_str("\u{1b}[34m            -+shdmNNNNmdhs+-\n        .+hMNho/:..``..:/ohNMh+.\n      :hMdo.                .odMh:\n    -dMy-                      -yMd-\n   sMd-                          -dMs\n  hMy       +.            .+       yMh\n yMy        dMs.        .sMd        yMy\n:Mm         dMNMs`    `sMNMd        `mM:\nyM+         dM//mNs``sNm//Md         +My\nmM-         dM:  +NNNN+  :Md         -Mm\nmM-         dM: `oNN+    :Md         -Mm\nyM+         dM/+NNo`     :Md         +My\n:Mm`        dMMNs`       :Md        `mM:\n yMy        dMs`         -ms        yMy\n  hMy       +.                     yMh\n   sMd-                          -dMs\n    -dMy-                      -yMd-\n      :hMdo.                .odMh:\n        .+hMNho/:..``..:/ohNMh+.\n            -+shdmNNNNmdhs+-")
}

pub fn oracle() -> (r: String)
    ensures
        r@ == icon_seq(Distro::Oracle),
{
    String::from_str("\u{1b}[31m\n      `-/+++++++++++++++++/-.`\n   `/syyyyyyyyyyyyyyyyyyyyyyys/.\n  :yyyyo/-...............-/oyyyy/\n /yyys-                     .oyyy+\n.yyyy`                       `syyy-\n:yyyo                         /yyy/\n.yyyy`                       `syyy-\n /yyys.                     .oyyyo\n  /yyyyo:-...............-:oyyyy/`\n   `/syyyyyyyyyyyyyyyyyyyyyyys+.\n     `.:/+ooooooooooooooo+/:.`")
}

pub fn os_elbrus() -> (r: String)
    ensures
        r@ == icon_seq(Distro::OsElbrus),
{
    String::from_str("\u{1b}[34m   ▄▄▄▄▄▄▄▄▄▄▄▄▄▄▄▄▄▄▄▄▄▄▄▄▄▄▄\n   ██▀▀▀▀▀▀▀▀▀▀▀▀▀▀▀▀▀▀▀▀▀▀▀██\n   ██                       ██\n   ██   ███████   ███████   ██\n   ██   ██   ██   ██   ██   ██\n   ██   ██   ██   ██   ██   ██\n   ██   ██   ██   ██   ██   ██\n   ██   ██   ██   ██   ██   ██\n   ██   ██   ███████   ███████\n   ██   ██                  ██\n   ██   ██▄▄▄▄▄▄▄▄▄▄▄▄▄▄▄▄▄▄██\n   ██   ▀▀▀▀▀▀▀▀▀▀▀▀▀▀▀▀▀▀▀▀██\n   ██                       ██\n   ███████████████████████████")
}

pub fn pac_bsd() -> (r: String)
    ensures
        r@ == icon_seq(Distro::PacBsd),
{
    String::from_str("\u{1b}[31m      :+sMs.\n  `:ddNMd-                         -o--`\n -sMMMMh:                          `+N+``\n yMMMMMs`     .....-/-...           `mNh/\n yMMMMMmh+-`:sdmmmmmmMmmmmddy+-``./ddNMMm\n yNMMNMMMMNdyyNNMMMMMMMMMMMMMMMhyshNmMMMm\n :yMMMMMMMMMNdooNMMMMMMMMMMMMMMMMNmy:mMMd\n  +MMMMMMMMMmy:sNMMMMMMMMMMMMMMMMMMMmshs-\n  :hNMMMMMMN+-+MMMMMMMMMMMMMMMMMMMMMMMs.\n .omysmNNhy/+yNMMMMMMMMMMNMMMMMMMMMNdNNy-\n /hMM:::::/hNMMMMMMMMMMMm/-yNMMMMMMN.mMNh`\n.hMMMMdhdMMMMMMMMMMMMMMmo  `sMMMMMMN mMMm-\n:dMMMMMMMMMMMMMMMMMMMMMdo+  oMMMMMMN`smMNo`\n/dMMMMMMMMMMMMMMMMMMMMMNd/` :yMMMMMN:-hMMM.\n:dMMMMMMMMMMMMMMMMMMMMMNh`  oMMMMMMNo/dMNN`\n:hMMMMMMMMMMMMMMMMMMMMMMNs--sMMMMMMMNNmy++`\n sNMMMMMMMMMMMMMMMMMMMMMMMmmNMMMMMMNho::o.\n :yMMMMMMMMMMMMMNho+sydNNNNNNNmysso/` -//\n  /dMMMMMMMMMMMMMs-  ````````..``\n   .oMMMMMMMMMMMMNs`               ./y:`\n     +dNMMNMMMMMMMmy`          ``./ys.\n      `/hMMMMMMMMMMMNo-``    `.+yy+-`\n        `-/hmNMNMMMMMMmmddddhhy/-`\n            `-+oooyMMMdsoo+/:.")
}

pub fn parabola_small() -> (r: String)
    ensures
        r@ == icon_seq(Distro::ParabolaSmall),
{
    String::from_str("\u{1b}[35m  __ __ __  _\n.`_//_//_/ / `.\n          /  .`\n         / .`\n        /.`\n       /`")
}

pub fn parabola() -> (r: String)
    ensures
        r@ == icon_seq(Distro::Parabola),
{
    String::from_str("\u{1b}[35m                          `.-.    `.\n                   `.`  `:++.   `-+o+.\n             `` `:+/. `:+/.   `-+oooo+\n        ``-::-.:+/. `:+/.   `-+oooooo+\n    `.-:///-  ..`   .-.   `-+oooooooo-\n `..-..`                 `+ooooooooo:\n``                        :oooooooo/\n                          `ooooooo:\n                          `oooooo:\n                          -oooo+.\n                          +ooo/`\n                         -ooo-\n                        `+o/.\n                        /+-\n                       //`\n                      -.")
}

pub fn pardus() -> (r: String)
    ensures
        r@ == icon_seq(Distro::Pardus),
{
    String::from_str("\u{1b}[33m .smNdy+-    `.:/osyyso+:.`    -+ydmNs.\n/Md- -/ymMdmNNdhso/::/oshdNNmdMmy/. :dM/\nmN.     oMdyy- -y          `-dMo     .Nm\n.mN+`  sMy hN+ -:             yMs  `+Nm.\n `yMMddMs.dy `+`               sMddMMy`\n   +MMMo  .`  .                 oMMM+\n   `NM/    `````.`    `.`````    +MN`\n   yM+   `.-:yhomy    ymohy:-.`   +My\n   yM:          yo    oy          :My\n   +Ms         .N`    `N.      +h sM+\n   `MN      -   -::::::-   : :o:+`NM`\n    yM/    sh   -dMMMMd-   ho  +y+My\n    .dNhsohMh-//: /mm/ ://-yMyoshNd`\n      `-ommNMm+:/. oo ./:+mMNmmo:`\n     `/o+.-somNh- :yy: -hNmos-.+o/`\n    ./` .s/`s+sMdd+``+ddMs+s`/s. `/.\n        : -y.  -hNmddmNy.  .y- :\n         -+       `..`       +-")
}

pub fn parrot() -> (r: String)
    ensures
        r@ == icon_seq(Distro::Parrot),
{
    String::from_str("\u{1b}[36m  `:oho/-`\n`mMMMMMMMMMMMNmmdhy-\n dMMMMMMMMMMMMMMMMMMs`\n +MMsohNMMMMMMMMMMMMMm/\n .My   .+dMMMMMMMMMMMMMh.\n  +       :NMMMMMMMMMMMMNo\n           `yMMMMMMMMMMMMMm:\n             /NMMMMMMMMMMMMMy`\n              .hMMMMMMMMMMMMMN+\n                  ``-NMMMMMMMMMd-\n                     /MMMMMMMMMMMs`\n                      mMMMMMMMsyNMN/\n                      +MMMMMMMo  :sNh.\n                      `NMMMMMMm     -o/\n                       oMMMMMMM.\n                       `NMMMMMM+\n                        +MMd/NMh\n                         mMm -mN`\n                         /MM  `h:\n                          dM`   .\n                          :M-\n                           d:\n                           -+\n                            -")
}

pub fn parsix() -> (r: String)
    ensures
        r@ == icon_seq(Distro::Parsix),
{
    String::from_str("\u{1b}[31m-/+/:.\n               \u{1b}[31m.syssssys.\n       \u{1b}[33m.--.    \u{1b}[31mssssssssso\u{1b}[33m   ..--.\n     :++++++:  \u{1b}[31m+ssssssss+\u{1b}[33m ./++/+++:\n    /+++++++++.\u{1b}[31m.yssooooy`\u{1b}[33m-+///////o-\n    /++++++++++.\u{1b}[31m+soooos:\u{1b}[33m:+////////+-\n     :+++++////o-\u{1b}[31moooooo-\u{1b}[33m+/////////-\n      `-/++//++-\u{1b}[90m.-----.-\u{1b}[33m:+/////:-\n  \u{1b}[37m-://::--\u{1b}[33m-:/:\u{1b}[90m.--.````.--.\u{1b}[33m:::-\u{1b}[37m--::::::.\n\u{1b}[37m-/:::::::://:\u{1b}[90m.:-`      `-:\u{1b}[37m`:/:::::::--/-\n\u{1b}[37m/::::::::::/-\u{1b}[90m--.        .-.\u{1b}[37m-/://///::::/\n\u{1b}[37m-/:::::::::/:\u{1b}[90m`:-.      .-:\u{1b}[37m`:///////////-\n `\u{1b}[37m-::::--\u{1b}[33m.-://.\u{1b}[90m---....---\u{1b}[33m`:+/:-\u{1b}[37m--::::-`\n       \u{1b}[33m-/+///+o/-\u{1b}[90m.----.\u{1b}[33m.:oo+++o+.\n     \u{1b}[33m-+/////+++o:\u{1b}[31msyyyyy.\u{1b}[33mo+++++++++:\n    \u{1b}[33m.+////+++++-\u{1b}[31m+sssssy+\u{1b}[33m.++++++++++\\\n    \u{1b}[33m.+:/++++++.\u{1b}[31m.yssssssy-\u{1b}[33m`+++++++++:\n     \u{1b}[33m:/+++++-  \u{1b}[31m+sssssssss  \u{1b}[33m-++++++-\n       \u{1b}[33m`--`    \u{1b}[31m+sssssssso    \u{1b}[33m`--`\n                \u{1b}[31m+sssssy+`\n                 \u{1b}[31m`.::-`")
}

pub fn pcbsd() -> (r: String)
    ensures
        r@ == icon_seq(Distro::Pcbsd),
{
    String::from_str("\u{1b}[31m                       ..\n                        s.\n                        +y\n                        yN\n                       -MN  `.\n                      :NMs `m\n                    .yMMm` `No\n            `-/+++sdMMMNs+-`+Ms\n        `:oo+-` .yMMMMy` `-+oNMh\n      -oo-     +NMMMM/       oMMh-\n    .s+` `    oMMMMM/     -  oMMMhy.\n   +s`- ::   :MMMMMd     -o `mMMMy`s+\n  y+  h .Ny+oNMMMMMN/    sh+NMMMMo  +y\n s+ .ds  -NMMMMMMMMMMNdhdNMMMMMMh`   +s\n-h .NM`   `hMMMMMMMMMMMMMMNMMNy:      h-\ny- hMN`     hMMmMMMMMMMMMNsdMNs.      -y\nm` mMMy`    oMMNoNMMMMMMo`  sMMMo     `m\nm` :NMMMdyydMMMMo+MdMMMs     sMMMd`   `m\nh-  `+ymMMMMMMMM--M+hMMN/    +MMMMy   -h\n:y     `.sMMMMM/ oMM+.yMMNddNMMMMMm   y:\n y:   `s  dMMN- .MMMM/ :MMMMMMMMMMh  :y\n `h:  `mdmMMM/  yMMMMs  sMMMMMMMMN- :h`\n   so  -NMMMN   /mmd+  `dMMMMMMMm- os\n    :y: `yMMM`       `+NMMMMMMNo`:y:\n      /s+`.omy      /NMMMMMNh/.+s:\n        .+oo:-.     /mdhs+::oo+.\n            -/o+++++++++++/-")
}

pub fn pc_linux_os() -> (r: String)
    ensures
        r@ == icon_seq(Distro::PcLinuxOs),
{
    String::from_str("\u{1b}[34m            mhhhyyyyhhhdN\n        dyssyhhhhhhhhhhhssyhN\n     Nysyhhyo/:-.....-/oyhhhssd\n   Nsshhy+.              `/shhysm\n  dohhy/                    -shhsy\n dohhs`                       /hhys\nN+hho   \u{1b}[37m+ssssss+-   .+syhys+   \u{1b}[34m/hhsy\nohhh`   \u{1b}[37mymmo++hmm+`smmy/::+y`   \u{1b}[34mshh+\n+hho    \u{1b}[37mymm-  /mmy+mms          \u{1b}[34m:hhod\n/hh+    \u{1b}[37mymmhhdmmh.smm/          \u{1b}[34m.hhsh\n+hhs    \u{1b}[37mymm+::-`  /mmy`    `    \u{1b}[34m/hh+m\nyyhh-   \u{1b}[37mymm-       /dmdyosyd`  \u{1b}[34m`yhh+\n ohhy`  \u{1b}[37m://`         -/+++/-   \u{1b}[34mohhom\n N+hhy-                      `shhoh\n   sshho.                  `+hhyom\n    dsyhhs/.            `:ohhhoy\n      dysyhhhso///://+syhhhssh\n         dhyssyhhhhhhyssyyhN\n              mddhdhdmN")
}

pub fn pengwin() -> (r: String)
    ensures
        r@ == icon_seq(Distro::Pengwin),
{
    String::from_str("\u{1b}[95m                     ...`\n\u{1b}[95m                     `-///:-`\n\u{1b}[95m                       .+\u{1b}[35mssys\u{1b}[95m/\n\u{1b}[95m                        +\u{1b}[35myyyyy\u{1b}[95mo    \u{1b}[35m\n\u{1b}[35m                        -yyyyyy:\n\u{1b}[35m           `.:/+ooo+/:` -yyyyyy+\n\u{1b}[35m         `:oyyyyyys+:-.`syyyyyy:\n\u{1b}[35m        .syyyyyyo-`   .oyyyyyyo\n\u{1b}[35m       `syyyyyy   `-+yyyyyyy/`\n\u{1b}[35m       /yyyyyy+ -/osyyyyyyo/.\n\u{1b}[35m       +yyyyyy-  `.-:::-.`\n\u{1b}[35m       .yyyyyy-\n\u{1b}[95m        :\u{1b}[35myyyyy\u{1b}[95mo\n\u{1b}[95m         .+\u{1b}[35mooo\u{1b}[95m+\n\u{1b}[95m           `.::/:.")
}

pub fn peppermint() -> (r: String)
    ensures
        r@ == icon_seq(Distro::Peppermint),
{
    String::from_str("\u{1b}[31m               PPPPPPPPPPPPPP\n\u{1b}[31m           PPPP\u{1b}[97mMMMMMMM\u{1b}[31mPPPPPPPPPPP\n\u{1b}[31m         PPPP\u{1b}[97mMMMMMMMMMM\u{1b}[31mPPPPPPPP\u{1b}[97mMM\u{1b}[31mPP\n\u{1b}[31m       PPPPPPPP\u{1b}[97mMMMMMMM\u{1b}[31mPPPPPPPP\u{1b}[97mMMMMM\u{1b}[31mPP\n\u{1b}[31m     PPPPPPPPPPPP\u{1b}[97mMMMMMM\u{1b}[31mPPPPPPP\u{1b}[97mMMMMMMM\u{1b}[31mPP\n\u{1b}[31m    PPPPPPPPPPPP\u{1b}[97mMMMMMMM\u{1b}[31mPPPP\u{1b}[97mM\u{1b}[31mP\u{1b}[97mMMMMMMMMM\u{1b}[31mPP\n\u{1b}[31m   PP\u{1b}[97mMMMM\u{1b}[31mPPPPPPPPPP\u{1b}[97mMMM\u{1b}[31mPPPPP\u{1b}[97mMMMMMMM\u{1b}[31mP\u{1b}[97mMM\u{1b}[31mPPPP\n\u{1b}[31m   P\u{1b}[97mMMMMMMMMMM\u{1b}[31mPPPPPP\u{1b}[97mMM\u{1b}[31mPPPPP\u{1b}[97mMMMMMM\u{1b}[31mPPPPPPPP\n\u{1b}[31m  P\u{1b}[97mMMMMMMMMMMMM\u{1b}[31mPPPPP\u{1b}[97mMM\u{1b}[31mPP\u{1b}[97mM\u{1b}[31mP\u{1b}[97mMM\u{1b}[31mP\u{1b}[97mMM\u{1b}[31mPPPPPPPPPPP\n\u{1b}[31m  P\u{1b}[97mMMMMMMMMMMMMMMMM\u{1b}[31mPP\u{1b}[97mM\u{1b}[31mP\u{1b}[97mMMM\u{1b}[31mPPPPPPPPPPPPPPPP\n\u{1b}[31m  P\u{1b}[97mMMM\u{1b}[31mPPPPPPPPPPPPPPPPPPPPPPPPPPPPPP\u{1b}[97mMMMMM\u{1b}[31mP\n\u{1b}[31m  PPPPPPPPPPPPPPPP\u{1b}[97mMMM\u{1b}[31mP\u{1b}[97mM\u{1b}[31mP\u{1b}[97mMMMMMMMMMMMMMMMM\u{1b}[31mPP\n\u{1b}[31m  PPPPPPPPPPP\u{1b}[97mMM\u{1b}[31mP\u{1b}[97mMM\u{1b}[31mPPPP\u{1b}[97mMM\u{1b}[31mPPPPP\u{1b}[97mMMMMMMMMMMM\u{1b}[31mPP\n\u{1b}[31m   PPPPPPPP\u{1b}[97mMMMMMM\u{1b}[31mPPPPP\u{1b}[97mMM\u{1b}[31mPPPPPP\u{1b}[97mMMMMMMMMM\u{1b}[31mPP\n\u{1b}[31m   PPPP\u{1b}[97mMM\u{1b}[31mP\u{1b}[97mMMMMMMM\u{1b}[31mPPPPPP\u{1b}[97mMM\u{1b}[31mPPPPPPPPPP\u{1b}[97mMMMM\u{1b}[31mPP\n\u{1b}[31m    PP\u{1b}[97mMMMMMMMMM\u{1b}[31mP\u{1b}[97mM\u{1b}[31mPPPP\u{1b}[97mMMMMMM\u{1b}[31mPPPPPPPPPPPPP\n\u{1b}[31m     PP\u{1b}[97mMMMMMMM\u{1b}[31mPPPPPPP\u{1b}[97mMMMMMM\u{1b}[31mPPPPPPPPPPPP\n\u{1b}[31m       PP\u{1b}[97mMMMM\u{1b}[31mPPPPPPPPP\u{1b}[97mMMMMMMM\u{1b}[31mPPPPPPPP\n\u{1b}[31m         PP\u{1b}[97mMM\u{1b}[31mPPPPPPPP\u{1b}[97mMMMMMMMMMM\u{1b}[31mPPPP\n\u{1b}[31m           PPPPPPPPPP\u{1b}[97mMMMMMMMM\u{1b}[31mPPPP\n\u{1b}[31m               PPPPPPPPPPPPPP")
}

pub fn popos_small() -> (r: String)
    ensures
        r@ == icon_seq(Distro::PoposSmall),
{
    String::from_str("\u{1b}[36m______\n\\\\   _ \\\\        __\n \\\\ \\\\ \\\\ \\\\      / /\n  \\\\ \\\\_\\\\ \\\\    / /\n   \\\\  ___\\\\  /_/\n    \\\\ \\\\    _\n   __\\\\_\\\\__(_)_\n  (___________)`")
}

pub fn pop_os() -> (r: String)
    ensures
        r@ == icon_seq(Distro::PopOs),
{
    String::from_str("\u{1b}[36m             /////////////\n         /////////////////////\n      ///////\u{1b}[37m*767\u{1b}[36m////////////////\n    //////\u{1b}[37m7676767676*\u{1b}[36m//////////////\n   /////\u{1b}[37m76767\u{1b}[36m//\u{1b}[37m7676767\u{1b}[36m//////////////\n  /////\u{1b}[37m767676\u{1b}[36m///\u{1b}[37m*76767\u{1b}[36m///////////////\n ///////\u{1b}[37m767676\u{1b}[36m///\u{1b}[37m76767\u{1b}[36m.///\u{1b}[37m7676*\u{1b}[36m///////\n/////////\u{1b}[37m767676\u{1b}[36m//\u{1b}[37m76767\u{1b}[36m///\u{1b}[37m767676\u{1b}[36m////////\n//////////\u{1b}[37m76767676767\u{1b}[36m////\u{1b}[37m76767\u{1b}[36m/////////\n///////////\u{1b}[37m76767676\u{1b}[36m//////\u{1b}[37m7676\u{1b}[36m//////////\n////////////,\u{1b}[37m7676\u{1b}[36m,///////\u{1b}[37m767\u{1b}[36m///////////\n/////////////*\u{1b}[37m7676\u{1b}[36m///////\u{1b}[37m76\u{1b}[36m////////////\n///////////////\u{1b}[37m7676\u{1b}[36m////////////////////\n ///////////////\u{1b}[37m7676\u{1b}[36m///\u{1b}[37m767\u{1b}[36m////////////\n  //////////////////////\u{1b}[37m'\u{1b}[36m////////////\n   //////\u{1b}[37m.7676767676767676767,\u{1b}[36m//////\n    /////\u{1b}[37m767676767676767676767\u{1b}[36m/////\n      ///////////////////////////\n         /////////////////////\n             /////////////")
}

pub fn porteus() -> (r: String)
    ensures
        r@ == icon_seq(Distro::Porteus),
{
    String::from_str("\u{1b}[36m             `.-:::-.`\n         -+ydmNNNNNNNmdy+-\n      .+dNmdhs+//////+shdmdo.\n    .smmy+-`             ./sdy:\n  `omdo.    `.-/+osssso+/-` `+dy.\n `yms.   `:shmNmdhsoo++osyyo-``oh.\n hm/   .odNmds/.`    ``.....:::-+s\n/m:  `+dNmy:`   `./oyhhhhyyooo++so\nys  `yNmy-    .+hmmho:-.`     ```\ns:  yNm+`   .smNd+.\n`` /Nm:    +dNd+`\n   yN+   `smNy.\n   dm    oNNy`\n   hy   -mNm.\n   +y   oNNo\n   `y`  sNN:\n    `:  +NN:\n     `  .mNo\n         /mm`\n          /my`\n           .sy`\n             .+:\n                `")
}

pub fn postmarketos_small() -> (r: String)
    ensures
        r@ == icon_seq(Distro::PostmarketosSmall),
{
    String::from_str("\u{1b}[32m        /\\\\\n       /  \\\\\n      /    \\\\\n      \\\\__   \\\\\n    /\\\\__ \\\\  _\\\\\n   /   /  \\\\/ __\n  /   / ____/  \\\\\n /    \\\\ \\\\       \\\\\n/_____/ /________\\\\")
}

pub fn post_market_os() -> (r: String)
    ensures
        r@ == icon_seq(Distro::PostMarketOs),
{
    String::from_str("\u{1b}[32m                 /\\\\\n                /  \\\\\n               /    \\\\\n              /      \\\\\n             /        \\\\\n            /          \\\\\n            \\\\           \\\\\n          /\\\\ \\\\____       \\\\\n         /  \\\\____ \\\\       \\\\\n        /       /  \\\\       \\\\\n       /       /    \\\\    ___\\\\\n      /       /      \\\\  / ____\n     /       /        \\\\/ /    \\\\\n    /       / __________/      \\\\\n   /        \\\\ \\\\                 \\\\\n  /          \\\\ \\\\                 \\\\\n /           / /                  \\\\\n/___________/ /____________________\\\\")
}

pub fn puff_os() -> (r: String)
    ensures
        r@ == icon_seq(Distro::PuffOs),
{
    String::from_str("\u{1b}[33m\n              _,..._,m,\n            ,/'      '\"\";\n           /             \".\n         ,'mmmMMMMmm.      \\\n       _/-\"^^^^^\"\"\"%#%mm,   ;\n ,m,_,'              \"###)  ;,\n(###%                 \\#/  ;##mm.\n ^#/  __        ___    ;  (######)\n  ;  //.\\\\     //.\\\\   ;   \\####/\n _; (#\\\"//     \\\\\"/#)  ;  ,/\n@##\\ \\##/   =   `\"=\" ,;mm/\n`\\##>.____,...,____,<####@")
}

pub fn puppy() -> (r: String)
    ensures
        r@ == icon_seq(Distro::Puppy),
{
    String::from_str("\u{1b}[34m           `-/osyyyysosyhhhhhyys+-\n  -ohmNNmh+/hMMMMMMMMNNNNd+dMMMMNM+\n yMMMMNNmmddo/NMMMNNNNNNNNNo+NNNNNy\n.NNNNNNmmmddds:MMNNNNNNNNNNNh:mNNN/\n-NNNdyyyhdmmmd`dNNNNNmmmmNNmdd/os/\n.Nm+shddyooo+/smNNNNmmmmNh.   :mmd.\n NNNNy:`   ./hmmmmmmmNNNN:     hNMh\n NMN-    -++- +NNNNNNNNNNm+..-sMMMM-\n.MMo    oNNNNo hNNNNNNNNmhdNNNMMMMM+\n.MMs    /NNNN/ dNmhs+:-`  yMMMMMMMM+\n mMM+     .. `sNN+.      hMMMMhhMMM-\n +MMMmo:...:sNMMMMMms:` hMMMMm.hMMy\n  yMMMMMMMMMMMNdMMMMMM::/+o+//dMMd`\n   sMMMMMMMMMMN+:oyyo:sMMMNNMMMNy`\n    :mMMMMMMMMMMMmddNMMMMMMMMmh/\n      /dMMMMMMMMMMMMMMMMMMNdy/`\n        .+hNMMMMMMMMMNmdhs/.\n            .:/+ooo+/:-.")
}

pub fn pureos_small() -> (r: String)
    ensures
        r@ == icon_seq(Distro::PureosSmall),
{
    String::from_str("\u{1b}[32m _____________\n|  _________  |\n| |         | |\n| |         | |\n| |_________| |\n|_____________|")
}

pub fn pure_os() -> (r: String)
    ensures
        r@ == icon_seq(Distro::PureOs),
{
    String::from_str("\u{1b}[32mdmmmmmmmmmmmmmmmmmmmmmmmmmmmmmmmmmmmmmmd\ndNm//////////////////////////////////mNd\ndNd                                  dNd\ndNd                                  dNd\ndNd                                  dNd\ndNd                                  dNd\ndNd                                  dNd\ndNd                                  dNd\ndNd                                  dNd\ndNd                                  dNd\ndNm//////////////////////////////////mNd\ndmmmmmmmmmmmmmmmmmmmmmmmmmmmmmmmmmmmmmmd")
}

pub fn qubes() -> (r: String)
    ensures
        r@ == icon_seq(Distro::Qubes),
{
    String::from_str("\u{1b}[34m               `..--..`\n            `.----------.`\n        `..----------------..`\n     `.------------------------.``\n `..-------------....-------------..`\n.::----------..``    ``..----------:+:\n:////:----..`            `..---:/ossso\n:///////:`                  `/osssssso\n:///////:                    /ssssssso\n:///////:                    /ssssssso\n:///////:                    /ssssssso\n:///////:                    /ssssssso\n:///////:                    /ssssssso\n:////////-`                .:sssssssso\n:///////////-.`        `-/osssssssssso\n`//////////////:-```.:+ssssssssssssso-\n  .-://////////////sssssssssssssso/-`\n     `.:///////////sssssssssssssso:.\n         .-:///////ssssssssssssssssss/`\n            `.:////ssss+/+ssssssssssss.\n                `--//-    `-/osssso/.")
}

pub fn qubyt() -> (r: String)
    ensures
        r@ == icon_seq(Distro::Qubyt),
{
    String::from_str("\u{1b}[34m    ########################\u{1b}[35m(\u{1b}[30mooo\n\u{1b}[34m    ########################\u{1b}[35m(\u{1b}[30mooo\n\u{1b}[34m###\u{1b}[35m(\u{1b}[30mooo                  \u{1b}[34m###\u{1b}[35m(\u{1b}[30mooo\n\u{1b}[34m###\u{1b}[35m(\u{1b}[30mooo                  \u{1b}[34m###\u{1b}[35m(\u{1b}[30mooo\n\u{1b}[34m###\u{1b}[35m(\u{1b}[30mooo                  \u{1b}[34m###\u{1b}[35m(\u{1b}[30mooo\n\u{1b}[34m###\u{1b}[35m(\u{1b}[30mooo                  \u{1b}[34m###\u{1b}[35m(\u{1b}[30mooo\n\u{1b}[34m###\u{1b}[35m(\u{1b}[30mooo                  \u{1b}[34m###\u{1b}[35m(\u{1b}[30mooo\n\u{1b}[34m###\u{1b}[35m(\u{1b}[30mooo                  \u{1b}[34m###\u{1b}[35m(\u{1b}[30mooo\n\u{1b}[34m###\u{1b}[35m(\u{1b}[30mooo           \u{1b}[34m##\u{1b}[30mo    \u{1b}[35m((((\u{1b}[30mooo\n\u{1b}[34m###\u{1b}[35m(\u{1b}[30mooo          o\u{1b}[35m((\u{1b}[34m###   \u{1b}[30moooooo\n\u{1b}[34m###\u{1b}[35m(\u{1b}[30mooo           oo\u{1b}[35m((\u{1b}[34m###\u{1b}[30mo\n\u{1b}[34m###\u{1b}[35m(\u{1b}[30mooo             ooo\u{1b}[35m((\u{1b}[34m###\n\u{1b}[34m################\u{1b}[35m(\u{1b}[30moo    oo\u{1b}[35m((((\u{1b}[30mo\n\u{1b}[35m(((((((((((((((((\u{1b}[30mooo     ooooo\n  oooooooooooooooooo        o")
}

pub fn quibian() -> (r: String)
    ensures
        r@ == icon_seq(Distro::Quibian),
{
    String::from_str("\u{1b}[33m            `.--::::::::--.`\n        `.-:::-..``   ``..-::-.`\n      .::::-`   .\u{1b}[37m+\u{1b}[33m:``       `.-::.`\n    .::::.`    -::::::-`       `.::.\n  `-:::-`    -:::::::::--..``     .::`\n `::::-     .\u{1b}[37moy\u{1b}[33m:::::::---.```.:    `::`\n -::::  `.-:::::::::::-.```         `::\n.::::.`-:::::::::::::.               `:.\n-::::.:::::::::::::::                 -:\n::::::::::::::::::::`                 `:\n:::::::::::::::::::-                  `:\n:::::::::::::::::::                   --\n.:::::::::::::::::`                  `:`\n`:::::::::::::::::                   -`\n .:::::::::::::::-                  -`\n  `::::::::::::::-                `.`\n    .::::::::::::-               ``\n      `.--:::::-.")
}

pub fn radix() -> (r: String)
    ensures
        r@ == icon_seq(Distro::Radix),
{
    String::from_str("\u{1b}[32m                .:oyhdmNo\n             `/yhyoosdms`\n            -o+/ohmmho-\n           ..`.:/:-`\n     `.--:::-.``\u{1b}[31m\n  .+ydNMMMMMMNmhs:`\n`omMMMMMMMMMMMMMMNh-\noNMMMNmddhhyyhhhddmy.\nmMMMMNmmddhhysoo+/:-`\nyMMMMMMMMMMMMMMMMNNh.\n-dmmmmmNNMMMMMMMMMMs`\n -+oossyhmMMMMMMMMd-\n `sNMMMMMMMMMMMMMm:\n  `yMMMMMMNmdhhhh:\n   `sNMMMMMNmmho.\n    `+mMMMMMMMy.\n      .yNMMMm+`\n       `:yd+.")
}

pub fn raspbian_small() -> (r: String)
    ensures
        r@ == icon_seq(Distro::RaspbianSmall),
{
    String::from_str("\u{1b}[32m   ..    ,.\n  :oo: .:oo:\n  'o\\\\o o/o:\n\u{1b}[31m :: . :: . ::\n:: :::  ::: ::\n:'  '',.''  ':\n ::: :::: :::\n ':,  ''  ,:'\n   ' ~::~ '")
}

pub fn raspbian() -> (r: String)
    ensures
        r@ == icon_seq(Distro::Raspbian),
{
    String::from_str("\u{1b}[32m  `.::///+:/-.        --///+//-:``\n `+oooooooooooo:   `+oooooooooooo:\n  /oooo++//ooooo:  ooooo+//+ooooo.\n  `+ooooooo:-:oo-  +o+::/ooooooo:\n   `:oooooooo+``    `.oooooooo+-\n     `:++ooo/.        :+ooo+/.`\n        \u{1b}[31m...`  `.----.` ``..\n     .::::-``:::::::::.`-:::-`\n    -:::-`   .:::::::-`  `-:::-\n   `::.  `.--.`  `` `.---.``.::`\n       .::::::::`  -::::::::` `\n .::` .:::::::::- `::::::::::``::.\n-:::` ::::::::::.  ::::::::::.`:::-\n::::  -::::::::.   `-::::::::  ::::\n-::-   .-:::-.``....``.-::-.   -::-\n .. ``       .::::::::.     `..`..\n   -:::-`   -::::::::::`  .:::::`\n   :::::::` -::::::::::` :::::::.\n   .:::::::  -::::::::. ::::::::\n    `-:::::`   ..--.`   ::::::.\n      `...`  `...--..`  `...`\n            .::::::::::\n             `.-::::-`")
}

pub fn reborn_os() -> (r: String)
    ensures
        r@ == icon_seq(Distro::RebornOs),
{
    String::from_str("\u{1b}[90m\n        mMMMMMMMMM  MMMMMMMMMm\n       NM                    MN\n      MM  \u{1b}[32mdddddddd  dddddddd  \u{1b}[90mMN\n     mM  \u{1b}[32mdd                dd  \u{1b}[90mMM\n        \u{1b}[32mdd  hhhhhh   hhhhh  dd\n   \u{1b}[90mmM      \u{1b}[32mhh            hh      \u{1b}[90mMm\n  NM  \u{1b}[32mhd       \u{1b}[90mmMMMMMMd       \u{1b}[32mdh  \u{1b}[90mMN\n NM  \u{1b}[32mdd  hh   \u{1b}[90mmMMMMMMMMm   \u{1b}[32mhh  dd  \u{1b}[90mMN\nNM  \u{1b}[32mdd  hh   \u{1b}[90mmMMMMMMMMMMm   \u{1b}[32mhh  dd  \u{1b}[90mMN\n NM  \u{1b}[32mdd  hh   \u{1b}[90mmMMMMMMMMm   \u{1b}[32mhh  dd  \u{1b}[90mMN\n  NM  \u{1b}[32mhd       \u{1b}[90mmMMMMMMm       \u{1b}[32mdh  \u{1b}[90mMN\n   mM      \u{1b}[32mhh            hh      \u{1b}[90mMm\n        \u{1b}[32mdd  hhhhhh  hhhhhh  dd\n     \u{1b}[90mMM  \u{1b}[32mdd                dd  \u{1b}[90mMM\n      MM  \u{1b}[32mdddddddd  dddddddd  \u{1b}[90mMN\n       NM                    MN\n        mMMMMMMMMM  MMMMMMMMMm")
}

pub fn red_star() -> (r: String)
    ensures
        r@ == icon_seq(Distro::RedStar),
{
    String::from_str("\u{1b}[31m                    ..\n                  .oK0l\n                 :0KKKKd.\n               .xKO0KKKKd\n              ,Od' .d0000l\n             .c;.   .'''...           ..'.\n.,:cloddxxxkkkkOOOOkkkkkkkkxxxxxxxxxkkkx:\n;kOOOOOOOkxOkc'...',;;;;,,,'',;;:cllc:,.\n .okkkkd,.lko  .......',;:cllc:;,,'''''.\n   .cdo. :xd' cd:.  ..';'',,,'',,;;;,'.\n      . .ddl.;doooc'..;oc;'..';::;,'.\n        coo;.oooolllllllcccc:'.  .\n       .ool''lllllccccccc:::::;.\n       ;lll. .':cccc:::::::;;;;'\n       :lcc:'',..';::::;;;;;;;,,.\n       :cccc::::;...';;;;;,,,,,,.\n       ,::::::;;;,'.  ..',,,,'''.\n        ........          ......")
}

pub fn redcore() -> (r: String)
    ensures
        r@ == icon_seq(Distro::Redcore),
{
    String::from_str("\u{1b}[31m                 RRRRRRRRR\n               RRRRRRRRRRRRR\n        RRRRRRRRRR      RRRRR\n   RRRRRRRRRRRRRRRRRRRRRRRRRRR\n RRRRRRR  RRR         RRR RRRRRRRR\nRRRRR    RR                 RRRRRRRRR\nRRRR    RR     RRRRRRRR      RR RRRRRR\nRRRR   R    RRRRRRRRRRRRRR   RR   RRRRR\nRRRR   R  RRRRRRRRRRRRRRRRRR  R   RRRRR\nRRRR     RRRRRRRRRRRRRRRRRRR  R   RRRR\n RRR     RRRRRRRRRRRRRRRRRRRR R   RRRR\n  RRR    RRRRRRRRRRRRRRRRRRRR    RRRR\n    RR   RRRRRRRRRRRRRRRRRRR    RRR\n     RR   RRRRRRRRRRRRRRRRR    RRR\n       RR   RRRRRRRRRRRRRR   RR\n         R       RRRR      RR")
}

pub fn redhat_old() -> (r: String)
    ensures
        r@ == icon_seq(Distro::RedhatOld),
{
    String::from_str("\u{1b}[31m             `.-..........`\n            `////////::.`-/.\n            -: ....-////////.\n            //:-::///////////`\n     `--::: `-://////////////:\n     //////-    ``.-:///////// .`\n     `://////:-.`    :///////::///:`\n       .-/////////:---/////////////:\n          .-://////////////////////.\n\u{1b}[37m         yMN+`.-\u{1b}[31m::///////////////-`\n\u{1b}[37m      .-`:NMMNMs`  `..-------..`\n       MN+/mMMMMMhoooyysshsss\nMMM    MMMMMMMMMMMMMMyyddMMM+\n MMMM   MMMMMMMMMMMMMNdyNMMh`     hyhMMM\n  MMMMMMMMMMMMMMMMyoNNNMMM+.   MMMMMMMM\n   MMNMMMNNMMMMMNM+ mhsMNyyyyMNMMMMsMM")
}

pub fn redhat() -> (r: String)
    ensures
        r@ == icon_seq(Distro::Redhat),
{
    String::from_str("\u{1b}[31m           .MMM..:MMMMMMM\n          MMMMMMMMMMMMMMMMMM\n          MMMMMMMMMMMMMMMMMMMM.\n         MMMMMMMMMMMMMMMMMMMMMM\n        ,MMMMMMMMMMMMMMMMMMMMMM:\n        MMMMMMMMMMMMMMMMMMMMMMMM\n  .MMMM'  MMMMMMMMMMMMMMMMMMMMMM\n MMMMMM    `MMMMMMMMMMMMMMMMMMMM.\nMMMMMMMM      MMMMMMMMMMMMMMMMMM .\nMMMMMMMMM.       `MMMMMMMMMMMMM' MM.\nMMMMMMMMMMM.                     MMMM\n`MMMMMMMMMMMMM.                 ,MMMMM.\n `MMMMMMMMMMMMMMMMM.          ,MMMMMMMM.\n    MMMMMMMMMMMMMMMMMMMMMMMMMMMMMMMMMMMM\n      MMMMMMMMMMMMMMMMMMMMMMMMMMMMMMMMM:\n         MMMMMMMMMMMMMMMMMMMMMMMMMMMMMM\n            `MMMMMMMMMMMMMMMMMMMMMMMM:\n                ``MMMMMMMMMMMMMMMMM'")
}

pub fn refracted_devuan() -> (r: String)
    ensures
        r@ == icon_seq(Distro::RefractedDevuan),
{
    String::from_str("\u{1b}[37m                             A\n                            VW\n                           VVW\\\\\n                         .yWWW\\\\\n ,;,,u,;yy;;v;uyyyyyyy  ,WWWWW^\n    *WWWWWWWWWWWWWWWW/  $VWWWWw      ,\n        ^*%WWWWWWVWWX  $WWWW**    ,yy\n        ,    \"**WWW/' **'   ,yy/WWW*`\n       &WWWWwy    `*`  <,ywWW%VWWW*\n     yWWWWWWWWWW*    .,   \"**WW%W\n   ,&WWWWWM*\"`  ,y/  &WWWww   ^*\n  XWWX*^   ,yWWWW09 .WWWWWWWWwy,\n *`        &WWWWWM  WWWWWWWWWWWWWww,\n           (WWWWW` /#####WWW***********\n           ^WWWW\n            VWW\n            Wh.\n            V/")
}

pub fn regata() -> (r: String)
    ensures
        r@ == icon_seq(Distro::Regata),
{
    String::from_str("\u{1b}[37m            ddhso+++++osydd\n        dho/.`hh\u{1b}[31m.:/+/:.\u{1b}[37mhhh`:+yd\n      do-hhhhhh\u{1b}[31m/sssssss+`\u{1b}[37mhhhhh./yd\n    h/`hhhhhhh\u{1b}[31m-sssssssss:\u{1b}[37mhhhhhhhh-yd\n  do`hhhhhhhhh\u{1b}[31m`ossssssso.\u{1b}[37mhhhhhhhhhh/d\n d/hhhhhhhhhhhh\u{1b}[31m`/ossso/.\u{1b}[37mhhhhhhhhhhhh.h\n /hhhhhhhhhhhh\u{1b}[34m`-/osyso/-`\u{1b}[37mhhhhhhhhhhhh.h\nshh\u{1b}[35m-/ooo+-\u{1b}[37mhhh\u{1b}[34m:syyso+osyys/`\u{1b}[37mhhh\u{1b}[33m`+oo`\u{1b}[37mhhh/\nh\u{1b}[35m`ohhhhhhho`\u{1b}[34m+yyo.\u{1b}[37mhhhhh\u{1b}[34m.+yyo`\u{1b}[33m.sssssss.\u{1b}[37mh`h\ns\u{1b}[35m:hhhhhhhhho\u{1b}[34myys`\u{1b}[37mhhhhhhh\u{1b}[34m.oyy/\u{1b}[33mossssssso-\u{1b}[37mhs\ns\u{1b}[35m.yhhhhhhhy/\u{1b}[34myys`\u{1b}[37mhhhhhhh\u{1b}[34m.oyy/\u{1b}[33mossssssso-\u{1b}[37mhs\nhh\u{1b}[35m./syyys+.\u{1b}[37m \u{1b}[34m+yy+.\u{1b}[37mhhhhh\u{1b}[34m.+yyo`\u{1b}[33m.ossssso/\u{1b}[37mh`h\nshhh\u{1b}[35m``.`\u{1b}[37mhhh\u{1b}[34m`/syyso++oyys/`\u{1b}[37mhhh\u{1b}[33m`+++-`\u{1b}[37mhh:h\nd/hhhhhhhhhhhh\u{1b}[34m`-/osyso+-`\u{1b}[37mhhhhhhhhhhhh.h\n d/hhhhhhhhhhhh\u{1b}[32m`/ossso/.\u{1b}[37mhhhhhhhhhhhh.h\n  do`hhhhhhhhh\u{1b}[32m`ossssssso.\u{1b}[37mhhhhhhhhhh:h\n    h/`hhhhhhh\u{1b}[32m-sssssssss:\u{1b}[37mhhhhhhhh-yd\n      h+.hhhhhh\u{1b}[32m+sssssss+\u{1b}[37mhhhhhh`/yd\n        dho:.hhh\u{1b}[32m.:+++/.\u{1b}[37mhhh`-+yd\n            ddhso+++++osyhd")
}

pub fn regolith() -> (r: String)
    ensures
        r@ == icon_seq(Distro::Regolith),
{
    String::from_str("\u{1b}[31m\n                 ``....```\n            `.:/++++++/::-.`\n          -/+++++++:.`\n        -++++++++:`\n      `/++++++++-\n     `/++++++++.                    -/+/\n     /++++++++/             ``   .:+++:.\n    -+++++++++/          ./++++:+++/-`\n    :+++++++++/         `+++++++/-`\n    :++++++++++`      .-/+++++++`\n   `:++++++++++/``.-/++++:-:::-`      `\n `:+++++++++++++++++/:.`            ./`\n:++/-:+++++++++/:-..              -/+.\n+++++++++/::-...:/+++/-..````..-/+++.\n`......``.::/+++++++++++++++++++++/.\n         -/+++++++++++++++++++++/.\n           .:/+++++++++++++++/-`\n              `.-:://////:-.")
}

pub fn rocky_small() -> (r: String)
    ensures
        r@ == icon_seq(Distro::RockySmall),
{
    String::from_str("\u{1b}[32m    `-/+++++++++/-.`\n `-+++++++++++++++++-`\n.+++++++++++++++++++++.\n-+++++++++++++++++++++++.\n+++++++++++++++/-/+++++++\n+++++++++++++/.   ./+++++\n+++++++++++:.       ./+++\n+++++++++:`   `:/:`   .:/\n-++++++:`   .:+++++:`\n .+++-`   ./+++++++++:`\n  `-`   ./+++++++++++-\n       -+++++++++:-.`")
}

pub fn rosa() -> (r: String)
    ensures
        r@ == icon_seq(Distro::Rosa),
{
    String::from_str("\u{1b}[34m           ROSAROSAROSAROSAR\n        ROSA               AROS\n      ROS   SAROSAROSAROSAR   AROS\n    RO   ROSAROSAROSAROSAROSAR   RO\n  ARO  AROSAROSAROSARO      AROS  ROS\n ARO  ROSAROS         OSAR   ROSA  ROS\n RO  AROSA   ROSAROSAROSA    ROSAR  RO\nRO  ROSAR  ROSAROSAROSAR  R  ROSARO  RO\nRO  ROSA  AROSAROSAROSA  AR  ROSARO  AR\nRO AROS  ROSAROSAROSA   ROS  AROSARO AR\nRO AROS  ROSAROSARO   ROSARO  ROSARO AR\nRO  ROS  AROSAROS   ROSAROSA AROSAR  AR\nRO  ROSA  ROS     ROSAROSAR  ROSARO  RO\n RO  ROS     AROSAROSAROSA  ROSARO  AR\n ARO  ROSA   ROSAROSAROS   AROSAR  ARO\n  ARO  OROSA      R      ROSAROS  ROS\n    RO   AROSAROS   AROSAROSAR   RO\n     AROS   AROSAROSAROSARO   AROS\n        ROSA               SARO\n           ROSAROSAROSAROSAR")
}

pub fn sabotage() -> (r: String)
    ensures
        r@ == icon_seq(Distro::Sabotage),
{
    String::from_str("\u{1b}[37m .|'''.|      |     '||''|.    ..|''||\n ||..  '     |||     ||   ||  .|'    ||\n  ''|||.    |  ||    ||'''|.  ||      ||\n.     '||  .''''|.   ||    || '|.     ||\n|'....|'  .|.  .||. .||...|'   ''|...|'\n\n|''||''|     |      ..|'''.|  '||''''|\n   ||       |||    .|'     '   ||  .\n   ||      |  ||   ||    ....  ||''|\n   ||     .''''|.  '|.    ||   ||\n  .||.   .|.  .||.  ''|...'|  .||.....|")
}

pub fn sabayon() -> (r: String)
    ensures
        r@ == icon_seq(Distro::Sabayon),
{
    String::from_str("\u{1b}[34m            ...........\n         ..             ..\n      ..                   ..\n    ..           \u{1b}[37mo           \u{1b}[34m..\n  ..            \u{1b}[37m:W'            \u{1b}[34m..\n ..             \u{1b}[37m.d.             \u{1b}[34m..\n:.             \u{1b}[37m.KNO              \u{1b}[34m.:\n:.             \u{1b}[37mcNNN.             \u{1b}[34m.:\n:              \u{1b}[37mdXXX,              \u{1b}[34m:\n:   \u{1b}[37m.          dXXX,       .cd,   \u{1b}[34m:\n:   \u{1b}[37m'kc ..     dKKK.    ,ll;:'    \u{1b}[34m:\n:     \u{1b}[37m.xkkxc;..dkkkc',cxkkl       \u{1b}[34m:\n:.     \u{1b}[37m.,cdddddddddddddo:.       \u{1b}[34m.:\n ..         \u{1b}[37m:lllllll:           \u{1b}[34m..\n   ..         \u{1b}[37m',,,,,          \u{1b}[34m..\n     ..                     ..\n        ..               ..\n          ...............")
}

pub fn sailfish() -> (r: String)
    ensures
        r@ == icon_seq(Distro::Sailfish),
{
    String::from_str("\u{1b}[34m                 _a@b\n              _#b (b\n            _@@   @_         _,\n          _#^@ _#*^^*gg,aa@^^\n          #- @@^  _a@^^\n          @_  *g#b\n          ^@_   ^@_\n            ^@_   @\n             @(b (b\n            #b(b#^\n          _@_#@^\n       _a@a*^\n   ,a@*^")
}

pub fn salent_os() -> (r: String)
    ensures
        r@ == icon_seq(Distro::SalentOs),
{
    String::from_str("\u{1b}[32m                 ``..``\n        .-:+oshdNMMMMMMNdhyo+:-.`\n  -oydmMMMMMMMMMMMMMMMMMMMMMMMMMMNdhs/\n\u{1b}[37m +hdddm\u{1b}[32mNMMMMMMMMMMMMMMMMMMMMMMMMN\u{1b}[37mmdddh+`\n\u{1b}[31m`MMMMMN\u{1b}[37mmdddddm\u{1b}[32mMMMMMMMMMMMM\u{1b}[37mmdddddm\u{1b}[33mNMMMMM-\n\u{1b}[31m mMMMMMMMMMMMN\u{1b}[37mddddhyyhhddd\u{1b}[33mNMMMMMMMMMMMM`\n\u{1b}[31m dMMMMMMMMMMMMMMMMM\u{1b}[37moo\u{1b}[33mMMMMMMMMMMMMMMMMMN`\n\u{1b}[31m yMMMMMMMMMMMMMMMMM\u{1b}[37mhh\u{1b}[33mMMMMMMMMMMMMMMMMMd\n\u{1b}[31m +MMMMMMMMMMMMMMMMM\u{1b}[37mhh\u{1b}[33mMMMMMMMMMMMMMMMMMy\n\u{1b}[31m :MMMMMMMMMMMMMMMMM\u{1b}[37mhh\u{1b}[33mMMMMMMMMMMMMMMMMMo\n\u{1b}[31m .MMMMMMMMMMMMMMMMM\u{1b}[37mhh\u{1b}[33mMMMMMMMMMMMMMMMMM/\n\u{1b}[31m `NMMMMMMMMMMMMMMMM\u{1b}[37mhh\u{1b}[33mMMMMMMMMMMMMMMMMM-\n\u{1b}[31m  mMMMMMMMMMMMMMMMM\u{1b}[37mhh\u{1b}[33mMMMMMMMMMMMMMMMMN`\n\u{1b}[31m  hMMMMMMMMMMMMMMMM\u{1b}[37mhh\u{1b}[33mMMMMMMMMMMMMMMMMm\n\u{1b}[31m  /MMMMMMMMMMMMMMMM\u{1b}[37mhh\u{1b}[33mMMMMMMMMMMMMMMMMy\n\u{1b}[31m   .+hMMMMMMMMMMMMM\u{1b}[37mhh\u{1b}[33mMMMMMMMMMMMMMms:\n\u{1b}[31m      `:smMMMMMMMMM\u{1b}[37mhh\u{1b}[33mMMMMMMMMMNh+.\n\u{1b}[31m          .+hMMMMMM\u{1b}[37mhh\u{1b}[33mMMMMMMdo:\n\u{1b}[31m             `:smMM\u{1b}[37myy\u{1b}[33mMMNy/`\n                 \u{1b}[31m.- \u{1b}[37m`\u{1b}[33m:.")
}

pub fn scientific() -> (r: String)
    ensures
        r@ == icon_seq(Distro::Scientific),
{
    String::from_str("\u{1b}[34m                 =/;;/-\n                +:    //\n               /;      /;\n              -X        H.\n.//;;;:;;-,   X=        :+   .-;:=;:;#;.\nM-       ,=;;;#:,      ,:#;;:=,       ,@\n:#           :#.=/++++/=.$=           #=\n ,#;         #/:+/;,,/++:+/         ;+.\n   ,+/.    ,;@+,        ,#H;,    ,/+,\n      ;+;;/= @.  \u{1b}[31m.H\u{1b}[37m#\u{1b}[31m#X   \u{1b}[34m-X :///+;\n      ;+=;;;.@,  \u{1b}[37m.X\u{1b}[31mM\u{1b}[37m@$.  \u{1b}[34m=X.//;=#/.\n   ,;:      :@#=        =$H:     .+#-\n ,#=         #;-///==///-//         =#,\n;+           :#-;;;:;;;;-X-           +:\n@-      .-;;;;M-        =M/;;;-.      -X\n :;;::;;-.    #-        :+    ,-;;-;:==\n              ,X        H.\n               ;/      #=\n                //    +;\n                 '////'")
}

pub fn septor() -> (r: String)
    ensures
        r@ == icon_seq(Distro::Septor),
{
    String::from_str("\u{1b}[34mssssssssssssssssssssssssssssssssssssssss\nssssssssssssssssssssssssssssssssssssssss\nssssssssssssssssssssssssssssssssssssssss\nssssssssssssssssssssssssssssssssssssssss\nssssssssss\u{1b}[37m;okOOOOOOOOOOOOOOko;\u{1b}[34mssssssssss\nsssssssss\u{1b}[37moNWWWWWWWWWWWWWWWWWWNo\u{1b}[34msssssssss\nssssssss\u{1b}[37m:WWWWWWWWWWWWWWWWWWWWWW:\u{1b}[34mssssssss\nssssssss\u{1b}[37mlWWWWWk\u{1b}[34mssssssssss\u{1b}[37mlddddd:\u{1b}[34mssssssss\nssssssss\u{1b}[37mcWWWWWNKKKKKKKKKKKKOx:\u{1b}[34mssssssssss\n\u{1b}[34myy\u{1b}[34msssssss\u{1b}[37mOWWWWWWWWWWWWWWWWWWWWx\u{1b}[34msssssss\u{1b}[34myy\nyyyyyyyyyy\u{1b}[37m:kKNNNNNNNNNNNNWWWWWW:\u{1b}[34myyyyyyyy\nyyyyyyyy\u{1b}[37msccccc;\u{1b}[34myyyyyyyyyy\u{1b}[37mkWWWWW:\u{1b}[34myyyyyyyy\nyyyyyyyy\u{1b}[37m:WWWWWWNNNNNNNNNNWWWWWW;\u{1b}[34myyyyyyyy\nyyyyyyyy\u{1b}[37m.dWWWWWWWWWWWWWWWWWWWNd\u{1b}[34myyyyyyyyy\nyyyyyyyyyy\u{1b}[37msdO0KKKKKKKKKKKK0Od;\u{1b}[34myyyyyyyyyy\nyyyyyyyyyyyyyyyyyyyyyyyyyyyyyyyyyyyyyyyy\nyyyyyyyyyyyyyyyyyyyyyyyyyyyyyyyyyyyyyyyy\nyyyyyyyyyyyyyyyyyyyyyyyyyyyyyyyyyyyyyyyy\nyyyyyyyyyyyyyyyyyyyyyyyyyyyyyyyyyyyyyyyy\nyyyyyyyyyyyyyyyyyyyyyyyyyyyyyyyyyyyyyyyy")
}

pub fn serene() -> (r: String)
    ensures
        r@ == icon_seq(Distro::Serene),
{
    String::from_str("\u{1b}[36m              __---''''''---__\n          .                      .\n        :                          :\n      -                       _______----_-\n     s               __----'''     __----\n __h_            _-'           _-'     h\n '-._''--.._    ;           _-'         y\n  :  ''-._  '-._/        _-'             :\n  y       ':_       _--''                y\n  m    .--'' '-._.;'                     m\n  m   :        :                         m\n  y    '.._     '-__                     y\n  :        '--._    '''----___           :\n   y            '--._         ''-- _    y\n    h                '--._          :  h\n     s                  __';         vs\n      -         __..--''             -\n        :_..--''                   :\n          .                     _ .\n            `''---______---''-``")
}

pub fn shark_linux() -> (r: String)
    ensures
        r@ == icon_seq(Distro::SharkLinux),
{
    String::from_str("\u{1b}[34m                              `:shd/\n                          `:yNMMMMs\n                       `-smMMMMMMN.\n                     .+dNMMMMMMMMs\n                   .smNNMMMMMMMMm`\n                 .sNNNNNNNMMMMMM/\n               `omNNNNNNNMMMMMMm\n              /dNNNNNNNNMMMMMMM+\n            .yNNNNNNNNNMMMMMMMN`\n           +mNNNNNNNNNMMMMMMMMh\n         .hNNNNNNNNNNMMMMMMMMMs\n        +mMNNNNNNNNMMMMMMMMMMMs\n      .hNMMNNNNMMMMMMMMMMMMMMMd\n    .oNNNNNNNNNNMMMMMMMMMMMMMMMo\n `:+syyssoo++++ooooossssssssssso:")
}

pub fn slackware_small() -> (r: String)
    ensures
        r@ == icon_seq(Distro::SlackwareSmall),
{
    String::from_str("\u{1b}[34m   ________\n  /  ______|\n  | |______\n  \\\\______  \\\\\n   ______| |\n| |________/\n|____________")
}

pub fn slackware() -> (r: String)
    ensures
        r@ == icon_seq(Distro::Slackware),
{
    String::from_str("\u{1b}[34m                  :::::::\n            :::::::::::::::::::\n         :::::::::::::::::::::::::\n       ::::::::\u{1b}[37mcllcccccllllllll\u{1b}[34m::::::\n    :::::::::\u{1b}[37mlc               dc\u{1b}[34m:::::::\n   ::::::::\u{1b}[37mcl   clllccllll    oc\u{1b}[34m:::::::::\n  :::::::::\u{1b}[37mo   lc\u{1b}[34m::::::::\u{1b}[37mco   oc\u{1b}[34m::::::::::\n ::::::::::\u{1b}[37mo    cccclc\u{1b}[34m:::::\u{1b}[37mclcc\u{1b}[34m::::::::::::\n :::::::::::\u{1b}[37mlc        cclccclc\u{1b}[34m:::::::::::::\n::::::::::::::\u{1b}[37mlcclcc          lc\u{1b}[34m::::::::::::\n::::::::::\u{1b}[37mcclcc\u{1b}[34m:::::\u{1b}[37mlccclc     oc\u{1b}[34m:::::::::::\n::::::::::\u{1b}[37mo    l\u{1b}[34m::::::::::\u{1b}[37ml    lc\u{1b}[34m:::::::::::\n :::::\u{1b}[37mcll\u{1b}[34m:\u{1b}[37mo     clcllcccll     o\u{1b}[34m:::::::::::\n :::::\u{1b}[37mocc\u{1b}[34m:\u{1b}[37mo                  clc\u{1b}[34m:::::::::::\n  ::::\u{1b}[37mocl\u{1b}[34m:\u{1b}[37mccslclccclclccclclc\u{1b}[34m:::::::::::::\n   :::\u{1b}[37moclcccccccccccccllllllllllllll\u{1b}[34m:::::\n    ::\u{1b}[37mlcc1lcccccccccccccccccccccccco\u{1b}[34m::::\n      ::::::::::::::::::::::::::::::::\n        ::::::::::::::::::::::::::::\n           ::::::::::::::::::::::\n                ::::::::::::")
}

pub fn sli_taz() -> (r: String)
    ensures
        r@ == icon_seq(Distro::SliTaz),
{
    String::from_str("\u{1b}[33m        @    @(               @\n      @@   @@                  @    @/\n     @@   @@                   @@   @@\n    @@  %@@                     @@   @@\n   @@  %@@@       @@@@@.       @@@@  @@\n  @@@    @@@@    @@@@@@@    &@@@    @@@\n   @@@@@@@ %@@@@@@@@@@@@ &@@@% @@@@@@@/\n       ,@@@@@@@@@@@@@@@@@@@@@@@@@\n  .@@@@@@@@@@@@@@@@@@@@@@@@@@@@@@@@@/\n@@@@@@.  @@@@@@@@@@@@@@@@@@@@@  /@@@@@@\n@@    @@@@@  @@@@@@@@@@@@,  @@@@@   @@@\n@@ @@@@.    @@@@@@@@@@@@@%    #@@@@ @@.\n@@ ,@@      @@@@@@@@@@@@@      @@@  @@\n@   @@.     @@@@@@@@@@@@@     @@@  *@\n@    @@     @@@@@@@@@@@@      @@   @\n      @      @@@@@@@@@.     #@\n       @      ,@@@@@       @")
}

pub fn smart_os() -> (r: String)
    ensures
        r@ == icon_seq(Distro::SmartOs),
{
    String::from_str("\u{1b}[36myyyyyyyyyyyyyyyyyyyyyyyyyyyyyyyyyyy\nyyyyyyyyyyyyyyyyyyyyyyyyyyyyyyyyyyy\nyyyys             oyyyyyyyyyyyyyyyy\nyyyys  yyyyyyyyy  oyyyyyyyyyyyyyyyy\nyyyys  yyyyyyyyy  oyyyyyyyyyyyyyyyy\nyyyys  yyyyyyyyy  oyyyyyyyyyyyyyyyy\nyyyys  yyyyyyyyy  oyyyyyyyyyyyyyyyy\nyyyys  yyyyyyyyyyyyyyyyyyyyyyyyyyyy\nyyyyy                         syyyy\nyyyyyyyyyyyyyyyyyyyyyyyyyyyy  syyyy\nyyyyyyyyyyyyyyyy  syyyyyyyyy  syyyy\nyyyyyyyyyyyyyyyy  oyyyyyyyyy  syyyy\nyyyyyyyyyyyyyyyy  oyyyyyyyyy  syyyy\nyyyyyyyyyyyyyyyy  syyyyyyyyy  syyyy\nyyyyyyyyyyyyyyyy              yyyyy\nyyyyyyyyyyyyyyyyyyyyyyyyyyyyyyyyyyy\nyyyyyyyyyyyyyyyyyyyyyyyyyyyyyyyyyyy")
}

pub fn solus() -> (r: String)
    ensures
        r@ == icon_seq(Distro::Solus),
{
    String::from_str("\u{1b}[37m            -```````````\n          `-+/------------.`\n       .---:mNo---------------.\n     .-----yMMMy:---------------.\n   `------oMMMMMm/----------------`\n  .------/MMMMMMMN+----------------.\n .------/NMMMMMMMMm-+/--------------.\n`------/NMMMMMMMMMN-:mh/-------------`\n.-----/NMMMMMMMMMMM:-+MMd//oso/:-----.\n-----/NMMMMMMMMMMMM+--mMMMh::smMmyo:--\n----+NMMMMMMMMMMMMMo--yMMMMNo-:yMMMMd/.\n.--oMMMMMMMMMMMMMMMy--yMMMMMMh:-yMMMy-`\n`-sMMMMMMMMMMMMMMMMh--dMMMMMMMd:/Ny+y.\n`-/+osyhhdmmNNMMMMMm-/MMMMMMMmh+/ohm+\n  .------------:://+-/++++++\u{1b}[34moshddys:\n   -hhhhyyyyyyyyyyyhhhhddddhysssso-\n    `:ossssssyysssssssssssssssso:`\n      `:+ssssssssssssssssssss+-\n         `-/+ssssssssssso+/-`\n              `.-----..`")
}

pub fn source_mage() -> (r: String)
    ensures
        r@ == icon_seq(Distro::SourceMage),
{
    String::from_str("\u{1b}[37m       :ymNMNho.\n.+sdmNMMMMMMMMMMy`\n.-::/yMMMMMMMMMMMm-\n      sMMMMMMMMMMMm/\n     /NMMMMMMMMMMMMMm:\n    .MMMMMMMMMMMMMMMMM:\n    `MMMMMMMMMMMMMMMMMN.\n     NMMMMMMMMMMMMMMMMMd\n     mMMMMMMMMMMMMMMMMMMo\n     hhMMMMMMMMMMMMMMMMMM.\n     .`/MMMMMMMMMMMMMMMMMs\n        :mMMMMMMMMMMMMMMMN`\n         `sMMMMMMMMMMMMMMM+\n           /NMMMMMMMMMMMMMN`\n             oMMMMMMMMMMMMM+\n          ./sd.-hMMMMMMMMmmN`\n      ./+oyyyh- `MMMMMMMMMmNh\n                 sMMMMMMMMMmmo\n                 `NMMMMMMMMMd:\n                  -dMMMMMMMMMo\n                    -shmNMMms.")
}

pub fn sparky() -> (r: String)
    ensures
        r@ == icon_seq(Distro::Sparky),
{
    String::from_str("\u{1b}[31m\n           .            `-:-`\n          .o`       .-///-`\n         `oo`    .:/++:.\n         os+`  -/+++:` ``.........```\n        /ys+`./+++/-.-::::::----......``\n       `syyo`++o+--::::-::/+++/-``\n       -yyy+.+o+`:/:-:sdmmmmmmmmdy+-`\n::-`   :yyy/-oo.-+/`ymho++++++oyhdmdy/`\n`/yy+-`.syyo`+o..o--h..osyhhddhs+//osyy/`\n  -ydhs+-oyy/.+o.-: ` `  :/::+ydhy+```-os-\n   .sdddy::syo--/:.     `.:dy+-ohhho    ./:\n     :yddds/:+oo+//:-`- /+ +hy+.shhy:     ``\n      `:ydmmdysooooooo-.ss`/yss--oyyo\n        `./ossyyyyo+:-/oo:.osso- .oys\n       ``..-------::////.-oooo/   :so\n    `...----::::::::--.`/oooo:    .o:\n           ```````     ++o+:`     `:`\n                     ./+/-`        `\n                   `-:-.\n                   ``")
}

pub fn star() -> (r: String)
    ensures
        r@ == icon_seq(Distro::Star),
{
    String::from_str("\u{1b}[37m                   ./\n                  `yy-\n                 `y.`y`\n    ``           s-  .y            `\n    +h//:..`    +/    /o    ``..:/so\n     /o``.-::/:/+      o/://::-.`+o`\n      :s`     `.        .`     `s/\n       .y.                    .s-\n        `y-                  :s`\n      .-//.                  /+:.\n   .:/:.                       .:/:.\n-+o:.                             .:+:.\n-///++///:::`              .-::::///+so-\n       ``..o/              d-....```\n           s.     `/.      d\n           h    .+o-+o-    h.\n           h  -o/`   `/o:  s:\n          -s/o:`       `:o/+/\n          /s-             -yo")
}

pub fn steam_os() -> (r: String)
    ensures
        r@ == icon_seq(Distro::SteamOs),
{
    String::from_str("\u{1b}[35m              .,,,,.\n        .,'onNMMMMMNNnn',.\n     .'oNMANKMMMMMMMMMMMNNn'.\n   .'ANMMMMMMMXKNNWWWPFFWNNMNn.\n  ;NNMMMMMMMMMMNWW'' ,.., 'WMMM,\n ;NMMMMV+##+VNWWW' .+;'':+, 'WMW,\n,VNNWP+\u{1b}[37m######\u{1b}[35m+WW,  \u{1b}[37m+:    \u{1b}[35m:+, +MMM,\n'\u{1b}[37m+#############,   +.    ,+' \u{1b}[35m+NMMM\n\u{1b}[37m  '*#########*'     '*,,*' \u{1b}[35m.+NMMMM.\n\u{1b}[37m     `'*###*'          ,.,;###\u{1b}[35m+WNM,\n\u{1b}[37m         .,;;,      .;##########\u{1b}[35m+W\n\u{1b}[37m,',.         ';  ,+##############'\n '###+. :,. .,; ,###############'\n  '####.. `'' .,###############'\n    '#####+++################'\n      '*##################*'\n         ''*##########*''\n              ''''''")
}

pub fn sunos_small() -> (r: String)
    ensures
        r@ == icon_seq(Distro::SunosSmall),
{
    String::from_str("\u{1b}[33m       .   .;   .\n   .   :;  ::  ;:   .\n   .;. ..      .. .;.\n..  ..             ..  ..\n .;,                 ,;.")
}

pub fn open_suse_leap() -> (r: String)
    ensures
        r@ == icon_seq(Distro::OpenSuseLeap),
{
    String::from_str("\u{1b}[37m                 `-++:`\n               ./oooooo/-\n            `:oooooooooooo:.\n          -+oooooooooooooooo+-`\n       ./oooooooooooooooooooooo/-\n      :oooooooooooooooooooooooooo:\n    `  `-+oooooooooooooooooooo/-   `\n `:oo/-   .:ooooooooooooooo+:`  `-+oo/.\n`/oooooo:.   -/oooooooooo/.   ./oooooo/.\n  `:+ooooo+-`  `:+oooo+-   `:oooooo+:`\n     .:oooooo/.   .::`   -+oooooo/.\n        -/oooooo:.    ./oooooo+-\n          `:+ooooo+-:+oooooo:`\n             ./oooooooooo/.\n                -/oooo+:`\n                  `:/.")
}

pub fn t2() -> (r: String)
    ensures
        r@ == icon_seq(Distro::T2),
{
    String::from_str("\u{1b}[34m\nTTTTTTTTTT\n    tt   \u{1b}[37m222\u{1b}[34m\n    tt  \u{1b}[37m2   2\u{1b}[34m\n    tt     \u{1b}[37m2\u{1b}[34m\n    tt    \u{1b}[37m2\u{1b}[34m\n    tt  \u{1b}[37m22222\u{1b}[34m")
}

pub fn open_suse_tumbleweed() -> (r: String)
    ensures
        r@ == icon_seq(Distro::OpenSuseTumbleweed),
{
    String::from_str("\u{1b}[37m                                     ......\n     .,cdxxxoc,.               .:kKMMMNWMMMNk:.\n    cKMMN0OOOKWMMXo. ;        ;0MWk:.      .:OMMk.\n  ;WMK;.       .lKMMNM,     :NMK,             .OMW;\n cMW;            'WMMMN   ,XMK,                 oMM'\n.MMc               ..;l. xMN:                    KM0\n'MM.                   'NMO                      oMM\n.MM,                 .kMMl                       xMN\n KM0               .kMM0. .dl:,..               .WMd\n .XM0.           ,OMMK,    OMMMK.              .XMK\n   oWMO:.    .;xNMMk,       NNNMKl.          .xWMx\n     :ONMMNXMMMKx;          .  ,xNMWKkxllox0NMWk,\n         .....                    .:dOOXXKOxl,")
}

pub fn opensuse_small() -> (r: String)
    ensures
        r@ == icon_seq(Distro::OpensuseSmall),
{
    String::from_str("\u{1b}[32m  _______\n__|   __ \\\\\n     / .\\\\ \\\\\n     \\\\__/ |\n   _______|\n   \\\\_______\n__________/")
}

pub fn open_suse() -> (r: String)
    ensures
        r@ == icon_seq(Distro::OpenSuse),
{
    String::from_str("\u{1b}[37m           .;ldkO0000Okdl;.\n       .;d00xl:^''''''^:ok00d;.\n     .d00l'                'o00d.\n   .d0Kd'\u{1b}[32m  Okxol:;,.          \u{1b}[37m:O0d.\n  .OK\u{1b}[32mKKK0kOKKKKKKKKKKOxo:,      \u{1b}[37mlKO.\n ,0K\u{1b}[32mKKKKKKKKKKKKKKK0P^\u{1b}[37m,,,\u{1b}[32m^dx:\u{1b}[37m    ;00,\n.OK\u{1b}[32mKKKKKKKKKKKKKKKk'\u{1b}[37m.oOPPb.\u{1b}[32m'0k.\u{1b}[37m   cKO.\n:KK\u{1b}[32mKKKKKKKKKKKKKKK: \u{1b}[37mkKx..dd \u{1b}[32mlKd\u{1b}[37m   'OK:\ndKK\u{1b}[32mKKKKKKKKKOx0KKKd \u{1b}[37m^0KKKO' \u{1b}[32mkKKc\u{1b}[37m   dKd\ndKK\u{1b}[32mKKKKKKKKKK;.;oOKx,..\u{1b}[37m^\u{1b}[32m..;kKKK0.\u{1b}[37m  dKd\n:KK\u{1b}[32mKKKKKKKKKK0o;...^cdxxOK0O/^^'  \u{1b}[37m.0K:\n kKK\u{1b}[32mKKKKKKKKKKKKK0x;,,......,;od  \u{1b}[37mlKk\n '0K\u{1b}[32mKKKKKKKKKKKKKKKKKKKK00KKOo^  \u{1b}[37mc00'\n  'kK\u{1b}[32mKKOxddxkOO00000Okxoc;''   \u{1b}[37m.dKk'\n    l0Ko.                    .c00l'\n     'l0Kk:.              .;xK0l'\n        'lkK0xl:;,,,,;:ldO0kl'\n            '^:ldxkkkkxdl:^'")
}

pub fn swag_arch() -> (r: String)
    ensures
        r@ == icon_seq(Distro::SwagArch),
{
    String::from_str("\u{1b}[37m        .;ldkOKXXNNNNXXK0Oxoc,.\n   ,lkXMMNK0OkkxkkOKWMMMMMMMMMM;\n 'K0xo  ..,;:c:.     `'lKMMMMM0\n     .lONMMMMMM'         `lNMk'\n\u{1b}[37m    ;WMMMMMMMMMO.              \u{1b}[34m....::...\n\u{1b}[37m    OMMMMMMMMMMMMKl.       \u{1b}[34m.,;;;;;ccccccc,\n\u{1b}[37m    `0MMMMMMMMMMMMMM0:         \u{1b}[34m.. .ccccccc.\n\u{1b}[37m      'kWMMMMMMMMMMMMMNo.   \u{1b}[34m.,:'  .ccccccc.\n\u{1b}[37m        `c0MMMMMMMMMMMMMN,\u{1b}[34m,:c;    :cccccc:\n\u{1b}[37m ckl.      `lXMMMMMMMMMX\u{1b}[34mocccc:.. ;ccccccc.\n\u{1b}[37mdMMMMXd,     `OMMMMMMWk\u{1b}[34mccc;:''` ,ccccccc:\n\u{1b}[37mXMMMMMMMWKkxxOWMMMMMNo\u{1b}[34mccc;     .cccccccc.\n\u{1b}[37m `':ldxO0KXXXXXK0Okdo\u{1b}[34mcccc.     :cccccccc.\n                    :ccc:'     `cccccccc:,\n                                   ''")
}

pub fn tails() -> (r: String)
    ensures
        r@ == icon_seq(Distro::Tails),
{
    String::from_str("\u{1b}[35m      ``\n  ./yhNh\nsyy/Nshh         `:o/\nN:dsNshh  █   `ohNMMd\nN-/+Nshh      `yMMMMd\nN-yhMshh       yMMMMd\nN-s:hshh  █    yMMMMd so//.\nN-oyNsyh       yMMMMd d  Mms.\nN:hohhhd:.     yMMMMd  syMMM+\nNsyh+-..+y+-   yMMMMd   :mMM+\n+hy-      -ss/`yMMMM     `+d+\n  :sy/.     ./yNMMMMm      ``\n    .+ys- `:+hNMMMMMMy/`\n      `hNmmMMMMMMMMMMMMdo.\n       dMMMMMMMMMMMMMMMMMNh:\n       +hMMMMMMMMMMMMMMMMMmy.\n         -oNMMMMMMMMMMmy+.`\n           `:yNMMMds/.`\n              .//`")
}

pub fn trisquel() -> (r: String)
    ensures
        r@ == icon_seq(Distro::Trisquel),
{
    String::from_str("\u{1b}[34m                         ▄▄▄▄▄▄\n                      ▄█████████▄\n      ▄▄▄▄▄▄         ████▀   ▀████\n   ▄██████████▄     ████▀   ▄▄ ▀███\n ▄███▀▀   ▀▀████     ███▄   ▄█   ███\n▄███   ▄▄▄   ████▄    ▀██████   ▄███\n███   █▀▀██▄  █████▄     ▀▀   ▄████\n▀███      ███  ███████▄▄  ▄▄██████\n\u{1b}[34m ▀███▄   ▄███  █████████████\u{1b}[36m████▀\n\u{1b}[34m  ▀█████████    ███████\u{1b}[36m███▀▀▀\n    ▀▀███▀▀     ██████▀▀\n               ██████▀   ▄▄▄▄\n              █████▀   ████████\n              █████   ███▀  ▀███\n               ████▄   ██▄▄▄  ███\n                █████▄   ▀▀  ▄██\n                  ██████▄▄▄████\n                     ▀▀█████▀▀")
}

pub fn ubuntu_cinnamon() -> (r: String)
    ensures
        r@ == icon_seq(Distro::UbuntuCinnamon),
{
    String::from_str("\u{1b}[31m            .-/+oooooooo+/-.\n        `:+oooooooooooooooooo+:`\n      -+oooooooooooooooooooooooo+-\n    .ooooooooooooooooooo\u{1b}[37m:ohNd\u{1b}[31moooooo.\n   /oooooooooooo\u{1b}[37m:/+oo++:/ohNd\u{1b}[31mooooooo/\n  +oooooooooo\u{1b}[37m:osNdhyyhdNNh+:+\u{1b}[31moooooooo+\n /ooooooooo\u{1b}[37m/dN/\u{1b}[31mooooooooo\u{1b}[37m/sNNo\u{1b}[31mooooooooo/\n.ooooooooo\u{1b}[37moMd:\u{1b}[31moooooooooooo\u{1b}[37m:yMy\u{1b}[31mooooooooo.\n+ooooo\u{1b}[37m:+o/Md\u{1b}[31moooooo\u{1b}[37m:sm/\u{1b}[31moo/ooo\u{1b}[37myMo\u{1b}[31moooooooo+\nooo\u{1b}[37m:sdMdosMo\u{1b}[31mooooo\u{1b}[37moNMd\u{1b}[31m//\u{1b}[37mdMd+\u{1b}[31mo\u{1b}[37m:so\u{1b}[31mooooooooo\noooo\u{1b}[37m+ymdosMo\u{1b}[31mooo\u{1b}[37m+mMm\u{1b}[31m+/\u{1b}[37mhMMMMMh+hs\u{1b}[31mooooooooo\n+oooooo\u{1b}[37m:\u{1b}[31m:\u{1b}[37m/Nm:\u{1b}[31m/\u{1b}[37mhMNo\u{1b}[31m:y\u{1b}[37mMMMMMMMMMM+\u{1b}[31moooooooo+\n.ooooooooo\u{1b}[37m/NNMNy\u{1b}[31m:o\u{1b}[37mNMMMMMMMMMMo\u{1b}[31mooooooooo.\n/oooooooooo\u{1b}[37m:yh:\u{1b}[31m+m\u{1b}[37mMMMMMMMMMMd/\u{1b}[31mooooooooo/\n  +oooooooooo\u{1b}[37m+\u{1b}[31m/h\u{1b}[37mmMMMMMMNds//o\u{1b}[31moooooooo+\n   /oooooooooooo\u{1b}[37m+:////:o/ymMd\u{1b}[31mooooooo/\n    .oooooooooooooooooooo\u{1b}[37m/sdh\u{1b}[31moooooo.\n      -+oooooooooooooooooooooooo+-\n        `:+oooooooooooooooooo+:`\n            .-/+oooooooo+/-.")
}

pub fn ubuntu_budgie() -> (r: String)
    ensures
        r@ == icon_seq(Distro::UbuntuBudgie),
{
    String::from_str("\u{1b}[37m           ./oydmMMMMMMmdyo/.\n        :smMMMMMMMMMMMhs+:++yhs:\n     `omMMMMMMMMMMMN+`        `odo`\n    /NMMMMMMMMMMMMN-            `sN/\n  `hMMMMmhhmMMMMMMh               sMh`\n .mMmo-     /yMMMMm`              `MMm.\n mN/       yMMMMMMMd-              MMMm\noN-        oMMMMMMMMMms+//+o+:    :MMMMo\nm/          +NMMMMMMMMMMMMMMMMm. :NMMMMm\nM`           .NMMMMMMMMMMMMMMMNodMMMMMMM\nM-            sMMMMMMMMMMMMMMMMMMMMMMMMM\nmm`           mMMMMMMMMMNdhhdNMMMMMMMMMm\noMm/        .dMMMMMMMMh:      :dMMMMMMMo\n mMMNyo/:/sdMMMMMMMMM+          sMMMMMm\n .mMMMMMMMMMMMMMMMMMs           `NMMMm.\n  `hMMMMMMMMMMM.oo+.            `MMMh`\n    /NMMMMMMMMMo                sMN/\n     `omMMMMMMMMy.            :dmo`\n        :smMMMMMMMh+-`   `.:ohs:\n           ./oydmMMMMMMdhyo/.")
}

pub fn ubuntu_gnome() -> (r: String)
    ensures
        r@ == icon_seq(Distro::UbuntuGnome),
{
    String::from_str("\u{1b}[37m          ./o.\n        .oooooooo\n      .oooo```soooo\n    .oooo`     `soooo\n   .ooo`   \u{1b}[36m.o.\u{1b}[37m   `\\/ooo.\n   :ooo   \u{1b}[36m:oooo.\u{1b}[37m   `\\/ooo.\n    sooo    \u{1b}[36m`ooooo\u{1b}[37m    \\/oooo\n     \\/ooo    \u{1b}[36m`soooo\u{1b}[37m    `ooooo\n      `soooo    \u{1b}[36m`\\/ooo\u{1b}[37m    `soooo\n\u{1b}[36m./oo    \u{1b}[37m`\\/ooo    \u{1b}[36m`/oooo.\u{1b}[37m   `/ooo\n\u{1b}[36m`\\/ooo.   \u{1b}[37m`/oooo.   \u{1b}[36m`/oooo.\u{1b}[37m   ``\n\u{1b}[36m  `\\/ooo.    \u{1b}[37m/oooo     \u{1b}[36m/ooo`\n\u{1b}[36m     `ooooo    \u{1b}[37m``    \u{1b}[36m.oooo\n\u{1b}[36m       `soooo.     .oooo`\n         `\\/oooooooooo`\n            ``\\/oo``")
}

pub fn ubuntu_mate() -> (r: String)
    ensures
        r@ == icon_seq(Distro::UbuntuMate),
{
    String::from_str("\u{1b}[32m            .:/+oossssoo+/:.`\n        `:+ssssssssssssssssss+:`\n      -+sssssssssssssss\u{1b}[37my\u{1b}[32mssssssss+-\n    .osssssssssssss\u{1b}[37myy\u{1b}[32mss\u{1b}[37mmMmh\u{1b}[32mssssssso.\n   /sssssssss\u{1b}[37mydmNNNmmd\u{1b}[32ms\u{1b}[37mmMMMMNdy\u{1b}[32msssss/\n `+ssssssss\u{1b}[37mhNNdy\u{1b}[32msssssss\u{1b}[37mmMMMMNdy\u{1b}[32mssssss+`\n +sssssss\u{1b}[37myNNh\u{1b}[32mss\u{1b}[37mhmNNNNm\u{1b}[32ms\u{1b}[37mmMmh\u{1b}[32ms\u{1b}[37mydy\u{1b}[32msssssss+\n-sssss\u{1b}[37my\u{1b}[32mss\u{1b}[37mNm\u{1b}[32mss\u{1b}[37mhNNh\u{1b}[32mssssss\u{1b}[37my\u{1b}[32ms\u{1b}[37mhh\u{1b}[32mss\u{1b}[37mmMy\u{1b}[32msssssss-\n+ssss\u{1b}[37myMNdy\u{1b}[32mss\u{1b}[37mhMd\u{1b}[32mssssssssss\u{1b}[37mhMd\u{1b}[32mss\u{1b}[37mNN\u{1b}[32msssssss+\nsssss\u{1b}[37myMMMMMmh\u{1b}[32msssssssssssss\u{1b}[37mNM\u{1b}[32mss\u{1b}[37mdMy\u{1b}[32msssssss\nsssss\u{1b}[37myMMMMMmhy\u{1b}[32mssssssssssss\u{1b}[37mNM\u{1b}[32mss\u{1b}[37mdMy\u{1b}[32msssssss\n+ssss\u{1b}[37myMNdy\u{1b}[32mss\u{1b}[37mhMd\u{1b}[32mssssssssss\u{1b}[37mhMd\u{1b}[32mss\u{1b}[37mNN\u{1b}[32msssssss+\n-sssss\u{1b}[37my\u{1b}[32mss\u{1b}[37mNm\u{1b}[32mss\u{1b}[37mhNNh\u{1b}[32mssssssss\u{1b}[37mdh\u{1b}[32mss\u{1b}[37mmMy\u{1b}[32msssssss-\n +sssssss\u{1b}[37myNNh\u{1b}[32mss\u{1b}[37mhmNNNNm\u{1b}[32ms\u{1b}[37mmNmh\u{1b}[32ms\u{1b}[37mymy\u{1b}[32msssssss+\n  +ssssssss\u{1b}[37mhNNdy\u{1b}[32msssssss\u{1b}[37mmMMMMmhy\u{1b}[32mssssss+\n   /sssssssss\u{1b}[37mydmNNNNmd\u{1b}[32ms\u{1b}[37mmMMMMNdh\u{1b}[32msssss/\n    .osssssssssssss\u{1b}[37myy\u{1b}[32mss\u{1b}[37mmMmdy\u{1b}[32msssssso.\n      -+sssssssssssssss\u{1b}[37my\u{1b}[32mssssssss+-\n        `:+ssssssssssssssssss+:`\n            .:/+oossssoo+/:.")
}

pub fn ubuntu_old() -> (r: String)
    ensures
        r@ == icon_seq(Distro::UbuntuOld),
{
    String::from_str("\u{1b}[31m                         ./+o+-\n\u{1b}[37m                 yyyyy- \u{1b}[31m-yyyyyy+\n\u{1b}[37m              \u{1b}[37m://+//////\u{1b}[31m-yyyyyyo\n\u{1b}[33m          .++ \u{1b}[37m.:/++++++/-\u{1b}[31m.+sss/`\n\u{1b}[33m        .:++o:  \u{1b}[37m/++++++++/:--:/-\n\u{1b}[33m       o:+o+:++.\u{1b}[37m`..```.-/oo+++++/\n\u{1b}[33m      .:+o:+o/.\u{1b}[37m          `+sssoo+/\n\u{1b}[37m .++/+:\u{1b}[33m+oo+o:`\u{1b}[37m             /sssooo.\n\u{1b}[37m/+++//+:\u{1b}[33m`oo+o\u{1b}[37m               /::--:.\n\u{1b}[37m+/+o+++\u{1b}[33m`o++o\u{1b}[31m               ++////.\n\u{1b}[37m .++.o+\u{1b}[33m++oo+:`\u{1b}[31m             /dddhhh.\n\u{1b}[33m      .+.o+oo:.\u{1b}[31m          `oddhhhh+\n\u{1b}[33m       +.++o+o`\u{1b}[31m`-````.:ohdhhhhh+\n\u{1b}[33m        `:o+++ \u{1b}[31m`ohhhhhhhhyo++os:\n\u{1b}[33m          .o:\u{1b}[31m`.syhhhhhhh/\u{1b}[33m.oo++o`\n\u{1b}[31m              /osyyyyyyo\u{1b}[33m++ooo+++/\n\u{1b}[31m                  ````` \u{1b}[33m+oo+++o:\n\u{1b}[33m                         `oo++.")
}

pub fn ubuntu_studio() -> (r: String)
    ensures
        r@ == icon_seq(Distro::UbuntuStudio),
{
    String::from_str("\u{1b}[36m              ..-::::::-.`\n         `.:+++++++++++\u{1b}[37mooo\u{1b}[36m++:.`\n       ./+++++++++++++\u{1b}[37msMMMNdyo\u{1b}[36m+/.\n     .++++++++++++++++\u{1b}[37moyhmMMMMms\u{1b}[36m++.\n   `/+++++++++\u{1b}[37mosyhddddhys\u{1b}[36m+\u{1b}[37mosdMMMh\u{1b}[36m++/`\n  `+++++++++\u{1b}[37mydMMMMNNNMMMMNds\u{1b}[36m+\u{1b}[37moyyo\u{1b}[36m++++`\n  +++++++++\u{1b}[37mdMMNhso\u{1b}[36m++++\u{1b}[37moydNMMmo\u{1b}[36m++++++++`\n :+\u{1b}[37modmy\u{1b}[36m+++\u{1b}[37mooysoohmNMMNmyoohMMNs\u{1b}[36m+++++++:\n ++\u{1b}[37mdMMm\u{1b}[36m+\u{1b}[37moNMd\u{1b}[36m++\u{1b}[37myMMMmhhmMMNs+yMMNo\u{1b}[36m+++++++\n`++\u{1b}[37mNMMy\u{1b}[36m+\u{1b}[37mhMMd\u{1b}[36m+\u{1b}[37moMMMs\u{1b}[36m++++\u{1b}[37msMMN\u{1b}[36m++\u{1b}[37mNMMs\u{1b}[36m+++++++.\n`++\u{1b}[37mNMMy\u{1b}[36m+\u{1b}[37mhMMd\u{1b}[36m+\u{1b}[37moMMMo\u{1b}[36m++++\u{1b}[37msMMN\u{1b}[36m++\u{1b}[37mmMMs\u{1b}[36m+++++++.\n ++\u{1b}[37mdMMd\u{1b}[36m+\u{1b}[37moNMm\u{1b}[36m++\u{1b}[37myMMNdhhdMMMs\u{1b}[36m+y\u{1b}[37mMMNo\u{1b}[36m+++++++\n :+\u{1b}[37modmy\u{1b}[36m++\u{1b}[37moo\u{1b}[36m+\u{1b}[37mss\u{1b}[36m+\u{1b}[37mohNMMMMmho\u{1b}[36m+\u{1b}[37myMMMs\u{1b}[36m+++++++:\n  +++++++++\u{1b}[37mhMMmhs+ooo+oshNMMms\u{1b}[36m++++++++\n  `++++++++\u{1b}[37moymMMMMNmmNMMMMmy+oys\u{1b}[36m+++++`\n   `/+++++++++\u{1b}[37moyhdmmmmdhso+sdMMMs\u{1b}[36m++/\n     ./+++++++++++++++\u{1b}[37moyhdNMMMms\u{1b}[36m++.\n       ./+++++++++++++\u{1b}[37mhMMMNdyo\u{1b}[36m+/.\n         `.:+++++++++++\u{1b}[37msso\u{1b}[36m++:.\n              ..-::::::-..")
}

pub fn ubuntu_small() -> (r: String)
    ensures
        r@ == icon_seq(Distro::UbuntuSmall),
{
    String::from_str("\u{1b}[31m         _\n     ---(_)\n _/  ---  \\\\\n(_) |   |\n  \\\\  --- _/\n     ---(_)")
}

pub fn ubuntu() -> (r: String)
    ensures
        r@ == icon_seq(Distro::Ubuntu),
{
    String::from_str("\u{1b}[31m            .-/+oossssoo+\\-.\n        ´:+ssssssssssssssssss+:`\n      -+ssssssssssssssssssyyssss+-\n    .ossssssssssssssssss\u{1b}[37mdMMMNy\u{1b}[31msssso.\n   /sssssssssss\u{1b}[37mhdmmNNmmyNMMMMh\u{1b}[31mssssss\\\n  +sssssssss\u{1b}[37mhm\u{1b}[31myd\u{1b}[37mMMMMMMMNddddy\u{1b}[31mssssssss+\n /ssssssss\u{1b}[37mhNMMM\u{1b}[31myh\u{1b}[37mhyyyyhmNMMMNh\u{1b}[31mssssssss\\\n.ssssssss\u{1b}[37mdMMMNh\u{1b}[31mssssssssss\u{1b}[37mhNMMMd\u{1b}[31mssssssss.\n+ssss\u{1b}[37mhhhyNMMNy\u{1b}[31mssssssssssss\u{1b}[37myNMMMy\u{1b}[31msssssss+\noss\u{1b}[37myNMMMNyMMh\u{1b}[31mssssssssssssss\u{1b}[37mhmmmh\u{1b}[31mssssssso\noss\u{1b}[37myNMMMNyMMh\u{1b}[31msssssssssssssshmmmh\u{1b}[31mssssssso\n+ssss\u{1b}[37mhhhyNMMNy\u{1b}[31mssssssssssss\u{1b}[37myNMMMy\u{1b}[31msssssss+\n.ssssssss\u{1b}[37mdMMMNh\u{1b}[31mssssssssss\u{1b}[37mhNMMMd\u{1b}[31mssssssss.\n \\ssssssss\u{1b}[37mhNMMM\u{1b}[31myh\u{1b}[37mhyyyyhdNMMMNh\u{1b}[31mssssssss/\n  +sssssssss\u{1b}[37mdm\u{1b}[31myd\u{1b}[37mMMMMMMMMddddy\u{1b}[31mssssssss+\n   \\sssssssssss\u{1b}[37mhdmNNNNmyNMMMMh\u{1b}[31mssssss/\n    .ossssssssssssssssss\u{1b}[37mdMMMNy\u{1b}[31msssso.\n      -+sssssssssssssssss\u{1b}[37myyy\u{1b}[31mssss+-\n        `:+ssssssssssssssssss+:`\n            .-\\+oossssoo+/-.")
}

pub fn univention() -> (r: String)
    ensures
        r@ == icon_seq(Distro::Univention),
{
    String::from_str("\u{1b}[31m         ./osssssssssssssssssssssso+-\n       `ohhhhhhhhhhhhhhhhhhhhhhhhhhhhy:\n       shhhhhhhhhhhhhhhhhhhhhhhhhhhhhhh-\n   `-//\u{1b}[37msssss\u{1b}[31m/hhhhhhhhhhhhhh+\u{1b}[37ms\u{1b}[31m.hhhhhhhhh+\n .ohhhy\u{1b}[37msssss\u{1b}[31m.hhhhhhhhhhhhhh.\u{1b}[37msss\u{1b}[31m+hhhhhhh+\n.yhhhhy\u{1b}[37msssss\u{1b}[31m.hhhhhhhhhhhhhh.\u{1b}[37mssss\u{1b}[31m:hhhhhh+\n+hhhhhy\u{1b}[37msssss\u{1b}[31m.hhhhhhhhhhhhhh.\u{1b}[37msssss\u{1b}[31myhhhhh+\n+hhhhhy\u{1b}[37msssss\u{1b}[31m.hhhhhhhhhhhhhh.\u{1b}[37msssss\u{1b}[31myhhhhh+\n+hhhhhy\u{1b}[37msssss\u{1b}[31m.hhhhhhhhhhhhhh.\u{1b}[37msssss\u{1b}[31myhhhhh+\n+hhhhhy\u{1b}[37msssss\u{1b}[31m.hhhhhhhhhhhhhh.\u{1b}[37msssss\u{1b}[31myhhhhh+\n+hhhhhy\u{1b}[37msssss\u{1b}[31m.hhhhhhhhhhhhhh.\u{1b}[37msssss\u{1b}[31myhhhhh+\n+hhhhhy\u{1b}[37msssss\u{1b}[31m.hhhhhhhhhhhhhh.\u{1b}[37msssss\u{1b}[31myhhhhh+\n+hhhhhy\u{1b}[37msssss\u{1b}[31m.hhhhhhhhhhhhhh.\u{1b}[37msssss\u{1b}[31myhhhhh+\n+hhhhhy\u{1b}[37mssssss\u{1b}[31m+yhhhhhhhhhhy/\u{1b}[37mssssss\u{1b}[31myhhhhh+\n+hhhhhh:\u{1b}[37msssssss\u{1b}[31m:hhhhhhh+\u{1b}[37m.ssssssss\u{1b}[31myhhhhy.\n+hhhhhhh+`\u{1b}[37mssssssssssssssss\u{1b}[31mhh\u{1b}[37msssss\u{1b}[31myhhho`\n+hhhhhhhhhs+\u{1b}[37mssssssssssss\u{1b}[31m+hh+\u{1b}[37msssss\u{1b}[31m/:-`\n-hhhhhhhhhhhhhhhhhhhhhhhhhhhhhhho\n :yhhhhhhhhhhhhhhhhhhhhhhhhhhhh+`\n   -+ossssssssssssssssssssss+:`")
}

pub fn venom() -> (r: String)
    ensures
        r@ == icon_seq(Distro::Venom),
{
    String::from_str("\u{1b}[90m   :::::::          :::::::\n   mMMMMMMm        dMMMMMMm\n   /MMMMMMMo      +MMMMMMM/\n    yMMMMMMN      mMMMMMMy\n     NMMMMMMs    oMMMMMMm\n     +MMMMMMN:   NMMMMMM+\n      hMMMMMMy  sMMMMMMy\n      :NMMMMMM::NMMMMMN:\n       oMMMMMMyyMMMMMM+\n        dMMMMMMMMMMMMh\n        /MMMMMMMMMMMN:\n         sMMMMMMMMMMo\n          mMMMMMMMMd\n          +MMMMMMMN:\n            ::::::")
}

pub fn void_small() -> (r: String)
    ensures
        r@ == icon_seq(Distro::VoidSmall),
{
    String::from_str("\u{1b}[32m    _______\n _ \\\\______ -\n| \\\\  ___  \\\\ |\n| | /   \\ | |\n| | \\___/ | |\n| \\\\______ \\\\_|\n -_______\\\\")
}

pub fn langit_ketujuh() -> (r: String)
    ensures
        r@ == icon_seq(Distro::LangitKetujuh),
{
    String::from_str("\u{1b}[37m\n   L7L7L7L7L7L7L7L7L7L7L7L7L7L7L7L7L7L7L7L7L7L\n      'L7L7L7L7L7L7L7L7L7L7L7L7L7L7L7L7L7L7L7L\n   L7L.   'L7L7L7L7L7L7L7L7L7L7L7L7L7L7L7L7L7L\n   L7L7L7L                             L7L7L7L\n   L7L7L7L                             L7L7L7L\n   L7L7L7L             L7L7L7L7L7L7L7L7L7L7L7L\n   L7L7L7L                'L7L7L7L7L7L7L7L7L7L\n   L7L7L7L                    'L7L7L7L7L7L7L7L\n   L7L7L7L                             L7L7L7L\n   L7L7L7L                             L7L7L7L\n   L7L7L7L7L7L7L7L7L7L7L7L7L7L7L7L7L7L.   'L7L\n   L7L7L7L7L7L7L7L7L7L7L7L7L7L7L7L7L7L7L7L.\n   L7L7L7L7L7L7L7L7L7L7L7L7L7L7L7L7L7L7L7L7L7L\n\u{1b}[34m")
}

pub fn semc() -> (r: String)
    ensures
        r@ == icon_seq(Distro::Semc),
{
    String::from_str("\u{1b}[32m            /\\\n     ______/  \\\n    /      |()| \u{1b}[90mE M C\n\u{1b}[32m   |   (-- |  |\n    \\   \\  |  |\n.----)   | |__|\n|_______/ / \u{1b}[31m\"\u{1b}[32m  \\\n              \u{1b}[31m\"\n            \"")
}

pub fn obarun() -> (r: String)
    ensures
        r@ == icon_seq(Distro::Obarun),
{
    String::from_str("\u{1b}[36m                    ,;::::;\n                ;cooolc;,\n             ,coool;\n           ,loool,\n          loooo;\n        :ooool\n       cooooc            ,:ccc;\n      looooc           :oooooool\n     cooooo          ;oooooooooo,\n    :ooooo;         :ooooooooooo\n    oooooo          oooooooooooc\n   :oooooo         :ooooooooool\n   loooooo         ;oooooooool\n   looooooc        .coooooooc\n   cooooooo:           ,;co;\n   ,ooooooool;       ,:loc\n    cooooooooooooloooooc\n     ;ooooooooooooool;\n       ;looooooolc;")
}

pub fn windows11() -> (r: String)
    ensures
        r@ == icon_seq(Distro::Windows11),
{
    String::from_str("\u{1b}[36m\n################  ################\n################  ################\n################  ################\n################  ################\n################  ################\n################  ################\n################  ################\n\n################  ################\n################  ################\n################  ################\n################  ################\n################  ################\n################  ################\n################  ################")
}

pub fn windows10() -> (r: String)
    ensures
        r@ == icon_seq(Distro::Windows10),
{
    String::from_str("\u{1b}[36m                                ..,\n                    ....,,:;+ccllll\n      ...,,+:;  cllllllllllllllllll\n,cclllllllllll  lllllllllllllllllll\nllllllllllllll  lllllllllllllllllll\nllllllllllllll  lllllllllllllllllll\nllllllllllllll  lllllllllllllllllll\nllllllllllllll  lllllllllllllllllll\nllllllllllllll  lllllllllllllllllll\n\nllllllllllllll  lllllllllllllllllll\nllllllllllllll  lllllllllllllllllll\nllllllllllllll  lllllllllllllllllll\nllllllllllllll  lllllllllllllllllll\nllllllllllllll  lllllllllllllllllll\n`'ccllllllllll  lllllllllllllllllll\n       `' \\\\*::  :ccllllllllllllllll\n                       ````''*::cll\n                                 ``")
}

pub fn windows() -> (r: String)
    ensures
        r@ == icon_seq(Distro::Windows),
{
    String::from_str("\u{1b}[31m        ,.=:!!t3Z3z.,\n       :tt:::tt333EE3\n\u{1b}[31m       Et:::ztt33EEEL$\u{1b}[32m @Ee.,      ..,\n\u{1b}[31m      ;tt:::tt333EE7\u{1b}[32m ;EEEEEEttttt33#\n\u{1b}[31m     :Et:::zt333EEQ.\u{1b}[32m $EEEEEttttt33QL\n\u{1b}[31m     it::::tt333EEF\u{1b}[32m @EEEEEEttttt33F\n\u{1b}[31m    ;3=*^```\"*4EEV\u{1b}[32m :EEEEEEttttt33@.\n\u{1b}[34m    ,.=::::!t=., \u{1b}[31m`\u{1b}[32m @EEEEEEtttz33QF\n\u{1b}[34m   ;::::::::zt33)\u{1b}[32m   \"4EEEtttji3P*\n\u{1b}[34m  :t::::::::tt33.\u{1b}[33m:Z3z..\u{1b}[32m  ``\u{1b}[33m ,..g.\n\u{1b}[34m  i::::::::zt33F\u{1b}[33m AEEEtttt::::ztF\n\u{1b}[34m ;:::::::::t33V\u{1b}[33m ;EEEttttt::::t3\n\u{1b}[34m E::::::::zt33L\u{1b}[33m @EEEtttt::::z3F\n\u{1b}[34m{3=*^```\"*4E3)\u{1b}[33m ;EEEtttt:::::tZ`\n\u{1b}[34m             `\u{1b}[33m :EEEEtttt::::z7\n                 \"VEzjt:;;z>*`")
}

pub fn xubuntu() -> (r: String)
    ensures
        r@ == icon_seq(Distro::Xubuntu),
{
    String::from_str("\u{1b}[34m           `.:/ossyyyysso/:.\n        `.yyyyyyyyyyyyyyyyyyyy.`\n      `yyyyyyyyyyyyyyyyyyyyyyyyyy`\n    `yyyyyyyyyyyyyyyyyyyy\u{1b}[37m::\u{1b}[34myyyyyyyy`\n   .yyyyyyyyyyy\u{1b}[37m/+:\u{1b}[34myyyyyyy\u{1b}[37mds\u{1b}[34myyy\u{1b}[37m+y\u{1b}[34myyyy.\n  yyyyyyy\u{1b}[37m:o/\u{1b}[34myy\u{1b}[37mdMMM+\u{1b}[34myyyyy\u{1b}[37m/M+\u{1b}[34my\u{1b}[37m:hM+\u{1b}[34myyyyyy\n yyyyyyy\u{1b}[37m+MMMy\u{1b}[34my\u{1b}[37mmMMMh\u{1b}[34myyyyy\u{1b}[37myM::mM+\u{1b}[34myyyyyyyy\n`yyyyyyy\u{1b}[37m+MMMMysMMMd\u{1b}[34myyyyy\u{1b}[37mdh:mN+\u{1b}[34myyyyyyyyy`\nyyyyyyyy\u{1b}[37m:NMMMMmMMMMmmdhyy+/y:\u{1b}[34myyyyyyyyyyy\nyyyyyyyy\u{1b}[37m+MMMMMMMMMMMMMMMMMMNho:\u{1b}[34myyyyyyyyy\nyyyyyyyy\u{1b}[37mmMMMMMMMMMMMMMMMMMMMMMMy\u{1b}[34myyyyyyyy\nyyyyyyy\u{1b}[37m+MMMMMMMMMMMMMMMMMMMMMMMM/\u{1b}[34myyyyyyy\n`yyyyyy\u{1b}[37msMMMMMMMMMMMMMMMMMMMMMMmo\u{1b}[34myyyyyyy`\n yyyyyy\u{1b}[37moMMMMMMMMMMMMMMMMMMMmy+\u{1b}[34myyyyyyyyy\n  yyyyy\u{1b}[37m:mMMMMMMMMMMMMMMNho/\u{1b}[34myyyyyyyyyyy\n   .yyyy\u{1b}[37m:yNMMMMMMMNdyo:\u{1b}[34myyyyyyyyyyyyy.\n    `yyyyyy\u{1b}[37m:/++/::\u{1b}[34myyyyyyyyyyyyyyyyy`\n      `yyyyyyyyyyyyyyyyyyyyyyyyyy`\n        `.yyyyyyyyyyyyyyyyyyyy.`\n           `.:/oosyyyysso/:.`")
}

pub fn zorin() -> (r: String)
    ensures
        r@ == icon_seq(Distro::Zorin),
{
    String::from_str("\u{1b}[34m        `osssssssssssssssssssso`\n       .osssssssssssssssssssssso.\n      .+oooooooooooooooooooooooo+.\n\n\n  `::::::::::::::::::::::.         .:`\n `+ssssssssssssssssss+:.`     `.:+ssso`\n.ossssssssssssssso/.       `-+ossssssso.\nssssssssssssso/-`      `-/osssssssssssss\n.ossssssso/-`      .-/ossssssssssssssso.\n `+sss+:.      `.:+ssssssssssssssssss+`\n  `:.         .::::::::::::::::::::::`\n\n\n      .+oooooooooooooooooooooooo+.\n       -osssssssssssssssssssssso-\n        `osssssssssssssssssssso`")
}

pub fn darwin() -> (r: String)
    ensures
        r@ == icon_seq(Distro::Darwin),
{
    String::from_str("\u{1b}[32m                    c.'\n                 ,xNMM.\n               .OMMMMo\n               lMMM\"\n     .;loddo:.  .olloddol;.\n   cKMMMMMMMMMMNWMMMMMMMMMM0:\n\u{1b}[33m .KMMMMMMMMMMMMMMMMMMMMMMMWd.\n XMMMMMMMMMMMMMMMMMMMMMMMX.\n\u{1b}[31m;MMMMMMMMMMMMMMMMMMMMMMMM:\n:MMMMMMMMMMMMMMMMMMMMMMMM:\n\u{1b}[31m.MMMMMMMMMMMMMMMMMMMMMMMMX.\n kMMMMMMMMMMMMMMMMMMMMMMMMWd.\n \u{1b}[35m'XMMMMMMMMMMMMMMMMMMMMMMMMMMk\n  'XMMMMMMMMMMMMMMMMMMMMMMMMK.\n    \u{1b}[34mkMMMMMMMMMMMMMMMMMMMMMMd\n     ;KMMMMMMMWXXWMMMMMMMk.\n       \"cooc*\"    \"*coo'\"")
}

pub fn profelis_samba_box() -> (r: String)
    ensures
        r@ == icon_seq(Distro::ProfelisSambaBox),
{
    String::from_str("\u{1b}[33m\n                    #\n               *////#####\n           /////////#########(\n      .((((((/////    ,####(#(((((\n  /#######(((*             (#(((((((((.\n//((#(#(#,        ((##(        ,((((((//\n//////        #(##########(       //////\n//////    ((#(#(#(#(##########(/////////\n/////(    (((((((#########(##((((((/////\n/(((#(                             ((((/\n####(#                             ((###\n#########(((/////////(((((((((,    (#(#(\n########(   /////////(((((((*      #####\n####///,        *////(((         (((((((\n.///////////                .//(((((((((\n     ///////////,       *(/////((((*\n         ,/(((((((((##########/.\n             .((((((#######\n                  ((##*")
}

} // verus!
