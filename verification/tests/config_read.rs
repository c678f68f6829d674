use std::path::Path;

use balena_migrate::balena_config::ImageType;
use balena_migrate::config::Config;
use balena_migrate::file_ref::{FileRef, HashInfo};
use balena_migrate::migrate_config::{FailMode, MigMode, MigrateWifis};

const TEST_DD_CONFIG_OK: &str = r###"
migrate:
  ## migrate mode
  mode: immediate
  work_dir: ./work
  all_wifis: false
  wifis:
    - 'Xcover'
    - 'QIFI'
    - 'bla'
  reboot: 10
  log:
    console: true
    drive: "/dev/sda1"
    level: debug
  kernel:
    path: balena.zImage
    hash:
      md5: f1b3e346889e190279f43e984c7b693a
  initrd:
    path: balena.initrd.cpio.gz
    hash:
      md5: f1b3e346889e190279f43e984c7b693a
  backup:
    - volume: "test volume 1"
      items:
      - source: /home/thomas/develop/balena.io/support
        target: "target dir 1.1"
      - source: "/home/thomas/develop/balena.io/customer/sonder/unitdata/UnitData files"
        target: "target dir 1.2"
    - volume: "test volume 2"
      items:
      - source: "/home/thomas/develop/balena.io/migrate/migratecfg/balena-migrate"
        target: "target file 2.1"
      - source: "/home/thomas/develop/balena.io/migrate/migratecfg/init-scripts"
        target: "target dir 2.2"
        filter: 'balena-.*'
    - volume: "test_volume_3"
      items:
      - source: "/home/thomas/develop/balena.io/migrate/migratecfg/init-scripts"
        filter: 'balena-.*'
  fail_mode: Reboot
  nwmgr_files:
    - eth0_static
  gzip_internal: true
  kernel_opts: "panic=20"
  delay: 60
  watchdogs:
    - path: /dev/watchdog1
      interval: 10
      close: false
  require_nwmgr_config: false
balena:
  image:
    dd:
      path: balena-cloud-bobdev-intel-nuc-2.39.0+rev3-dev-v10.0.3.img.gz
      hash:
        md5: 4834c4ffb3ee0cf0be850242a693c9b6
  config:
    path: config.json
    hash:
      md5: 4834c4ffb3ee0cf0be850242a693c9b6
  app_name: support-multi
  api:
    host: api.balena-cloud.com
    port: 443
    check: true
  check_vpn: true
  check_timeout: 20
debug:
  no_flash: true
  force_flash_device: '/dev/sdb'
"###;

const TEST_FS_CONFIG_OK: &str = r###"
migrate:
  # migrate mode
  # immediate migrate
  # pretend : just run stage 1 without modifying anything
  # extract : do not migrate extract image instead
  mode: immediate
  # where required files are expected
  work_dir: '.'
  # migrate all found wifi configurations
  all_wifis: true
  # automatically reboot into stage 2 after n seconds
  reboot: 5
  log:
    # use this drive for stage2 persistent logging
    drive: '/dev/sda1'
    # stage2 log level (trace, debug, info, warn, error)
    level: 'debug'
  # path to stage2 kernel - must be a balena os kernel matching the device type
  kernel:
    path: 'balena.zImage'
  # path to stage2 initramfs
  initrd:
    path: 'balena.initramfs.cpio.gz'
  # path to stage2 device tree blob - better be a balena dtb matching the device type
  dtb_path: 'balena.dtb'
  # backup configuration, configured files are copied to balena and mounted as volumes
  backup:
  # network manager configuration files
  nwmgr_files:
    - eth0_static
    - sprint
  # use internal gzip with dd
  gzip_internal: ~
  # Extra kernel commandline options
  kernel_opts: "panic=20"
  # Use the given device instead of the boot device to flash to
  force_flash_device: ~
  # delay migration by n seconds - workaround for stem watchdog
  delay: 60
  # test kicking watchdogs - work in progress - not currently working
  watchdogs:
    # path to watchdog device
    #- path: /dev/watchdog1
      # optional interval in seconds - overrides interval read from watchdog device
      #  interval: ~
      # optional close, false disables MAGICCLOSE flag read from device
      # close: false
balena:
  image:
    # use filesystem writes instead of Flasher (dd)
    fs:
      # needed for filesystem writes, beagleboard-xm masquerades as beaglebone-black
      device_slug: beaglebone-black
      # make mkfs.ext4 check for bad blocks, either
      # empty / none, -> No test
      # ro -> Read test
      # rw -> ReadWrite test (slow)
      check: ro
      # maximise resin-data partition, true / false
      # empty / true -> maximise
      # false -> do not maximise
      # Currently required to be empty / true - migration does not succeed with max_data set to false
      max_data: true
      # use direct io for mkfs.ext (-D see manpage)
      # true -> use direct io (slow)
      # empty / false -> do not use
      mkfs_direct: ~
      # extended partition blocks
      extended_blocks: 2162688
      # boot partition blocks & tar file
      boot:
        blocks: 81920
        archive:
          path: resin-boot.tgz
          hash:
            md5: 1234567890
      # rootA partition blocks & tar file
      root_a:
        blocks: 638976
        archive:
          path: resin-rootA.tgz
      # rootB partition blocks & tar file
      root_b:
        blocks: 638976
        archive:
          path: resin-rootB.tgz
      # state partition blocks & tar file
      state:
        blocks: 40960
        archive:
          path: resin-state.tgz
      # data partition blocks & tar file
      data:
        blocks: 2105344
        archive:
          path: resin-data.tgz
  # config.json file to inject
  config:
    path: "config.json"
  # application name
  app_name: 'bbtest'
  # api checks
  api:
    host: "api.balena-cloud.com"
    port: 443
    check: true
  # check for vpn connection
  check_vpn: true
  # timeout for checks
  check_timeout: 20
debug:
  # don't flash device - terminate stage2 and reboot before flashing
  no_flash: false
"###;

#[test]
fn read_conf_ok1() {
    let config = Config::from_string(TEST_DD_CONFIG_OK).unwrap();

    assert_eq!(config.migrate.get_mig_mode(), &MigMode::Immediate);
    assert_eq!(Path::new(config.migrate.get_work_dir()), Path::new("./work/"));
    match config.migrate.get_wifis() {
        MigrateWifis::List(list) => assert_eq!(list.len(), 3),
        _ => panic!("unexpected result from get_wifis"),
    };
    assert_eq!(config.migrate.get_reboot(), &Some(10));
    assert_eq!(config.migrate.get_log_console(), true);
    assert_eq!(config.migrate.get_log_device(), Some("/dev/sda1"));
    assert_eq!(config.migrate.get_log_level(), "debug");
    assert_eq!(
        config.migrate.get_kernel_path(),
        &FileRef {
            path: String::from("balena.zImage"),
            hash: Some(HashInfo::Md5(String::from("f1b3e346889e190279f43e984c7b693a")))
        }
    );
    assert_eq!(
        config.migrate.get_initrd_path(),
        &FileRef {
            path: String::from("balena.initrd.cpio.gz"),
            hash: Some(HashInfo::Md5(String::from("f1b3e346889e190279f43e984c7b693a")))
        }
    );

    let bckup_vols = config.migrate.get_backup_volumes();
    assert_eq!(bckup_vols.len(), 3);
    assert_eq!(bckup_vols.get(0).unwrap().volume, "test volume 1");

    assert_eq!(config.migrate.get_fail_mode(), &FailMode::Reboot);
    assert_eq!(config.migrate.get_nwmgr_files().len(), 1);
    assert_eq!(config.migrate.is_gzip_internal(), true);
    assert_eq!(config.migrate.get_kernel_opts(), Some(String::from("panic=20")));
    assert_eq!(config.migrate.get_delay(), 60);
    assert_eq!(config.migrate.require_nwmgr_configs(), false);

    if let Some(ImageType::Flasher(comp)) = config.balena.get_image_path() {
        assert_eq!(
            comp,
            &FileRef {
                path: String::from(
                    "balena-cloud-bobdev-intel-nuc-2.39.0+rev3-dev-v10.0.3.img.gz"
                ),
                hash: Some(HashInfo::Md5(String::from("4834c4ffb3ee0cf0be850242a693c9b6",)))
            }
        );
    } else {
        panic!("Invalid image type");
    };

    assert_eq!(
        config.balena.get_config_path(),
        Some(
            &FileRef {
                path: String::from("config.json"),
                hash: Some(HashInfo::Md5(String::from("4834c4ffb3ee0cf0be850242a693c9b6")))
            }
        )
    );
    assert_eq!(config.balena.is_check_vpn(), true);
    assert_eq!(config.balena.get_check_timeout(), 20);
}

#[test]
fn read_conf_ok2() {
    let _config = Config::from_string(TEST_FS_CONFIG_OK).unwrap();
}
